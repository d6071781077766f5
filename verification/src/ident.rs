//! Package identifiers: the `origin/name[/version[/release]]` grammar.
//!
//! A component reference is resolved against this grammar before any
//! workspace is created; an identifier is *fully qualified* once both a
//! version and a release are present.

use vstd::prelude::*;

use crate::error::ExportError;

verus! {

/// The mathematical model of a package identifier.
pub ghost struct IdentView {
    pub origin: Seq<char>,
    pub name: Seq<char>,
    pub version: Option<Seq<char>>,
    pub release: Option<Seq<char>>,
}

impl IdentView {
    /// Both a version and a release are present.
    pub open spec fn fully_qualified(self) -> bool {
        self.version is Some && self.release is Some
    }

    /// Every component is a well-formed path segment.
    pub open spec fn wf(self) -> bool {
        &&& valid_part(self.origin)
        &&& valid_part(self.name)
        &&& (self.version matches Some(v) ==> valid_part(v))
        &&& (self.release matches Some(r) ==> valid_part(r))
        &&& (self.release is Some ==> self.version is Some)
    }

    /// The text of the identifier: the parts joined with `/`.
    pub open spec fn text(self) -> Seq<char> {
        self.origin + seq!['/'] + self.name + match self.version {
            Some(v) => seq!['/'] + v + match self.release {
                Some(r) => seq!['/'] + r,
                None => Seq::empty(),
            },
            None => Seq::empty(),
        }
    }
}

/// A concrete package identifier.
#[derive(Debug, Clone)]
pub struct PackageIdent {
    pub origin: String,
    pub name: String,
    pub version: Option<String>,
    pub release: Option<String>,
}

impl View for PackageIdent {
    type V = IdentView;

    open spec fn view(&self) -> IdentView {
        IdentView {
            origin: self.origin@,
            name: self.name@,
            version: match self.version {
                Some(v) => Some(v@),
                None => None,
            },
            release: match self.release {
                Some(r) => Some(r@),
                None => None,
            },
        }
    }
}

impl DeepView for PackageIdent {
    type V = IdentView;

    open spec fn deep_view(&self) -> IdentView {
        self.view()
    }
}

/// A non-empty sequence of characters containing no separator.
pub open spec fn valid_part(s: Seq<char>) -> bool {
    s.len() > 0 && forall|i: int| 0 <= i < s.len() ==> s[i] != '/'
}

/// A character an origin name may hold: `a`-`z` and `0`-`9` anywhere,
/// `_` and `-` after the first character.
pub open spec fn origin_char_ok(c: char, first: bool) -> bool {
    ('a' <= c && c <= 'z') || ('0' <= c && c <= '9') || (!first && (c == '_' || c == '-'))
}

/// A well-formed origin name: non-empty, at most 255 characters, drawn from
/// the origin alphabet.
pub open spec fn spec_valid_origin(s: Seq<char>) -> bool {
    1 <= s.len() <= 255 && forall|i: int| 0 <= i < s.len() ==> origin_char_ok(s[i], i == 0)
}

/// Decides whether a string is a well-formed origin name.
pub fn is_valid_origin_name(s: &str) -> (r: bool)
    ensures
        r == spec_valid_origin(s@),
{
    let n = s.unicode_len();
    if n == 0 || n > 255 {
        return false;
    }
    let mut i: usize = 0;
    while i < n
        invariant
            i <= n,
            n == s@.len(),
            1 <= n <= 255,
            forall|m: int| 0 <= m < i ==> origin_char_ok(s@[m], m == 0),
        decreases n - i,
    {
        let c = s.get_char(i);
        let ok = ('a' <= c && c <= 'z') || ('0' <= c && c <= '9') || (i > 0 && (c == '_' || c
            == '-'));
        if !ok {
            return false;
        }
        i = i + 1;
    }
    true
}

/// Splitting a sequence of characters at every `/`.
///
/// The result always holds at least one (possibly empty) part; a trailing
/// separator contributes a final empty part, as `str::split` does.
pub open spec fn spec_split_slash(s: Seq<char>) -> Seq<Seq<char>>
    decreases s.len(),
{
    if s.len() == 0 {
        seq![Seq::empty()]
    } else if s.last() == '/' {
        spec_split_slash(s.drop_last()).push(Seq::empty())
    } else {
        let r = spec_split_slash(s.drop_last());
        r.update(r.len() - 1, r.last().push(s.last()))
    }
}

pub proof fn lemma_split_slash_len(s: Seq<char>)
    ensures
        spec_split_slash(s).len() >= 1,
    decreases s.len(),
{
    if s.len() > 0 {
        lemma_split_slash_len(s.drop_last());
    }
}

pub proof fn lemma_split_slash_no_slash(s: Seq<char>)
    ensures
        forall|i: int, j: int|
            0 <= i < spec_split_slash(s).len() && 0 <= j < spec_split_slash(s)[i].len()
                ==> spec_split_slash(s)[i][j] != '/',
    decreases s.len(),
{
    if s.len() > 0 {
        lemma_split_slash_no_slash(s.drop_last());
        lemma_split_slash_len(s.drop_last());
    }
}

/// Relies on std's `String::push`: appends one character to the string.
#[verifier::external_body]
fn string_push(s: &mut String, c: char)
    ensures
        final(s)@ == old(s)@.push(c),
{
    s.push(c);
}

/// Splits a reference into its `/`-separated parts.
pub fn split_slash(s: &str) -> (parts: Vec<String>)
    ensures
        parts.deep_view() == spec_split_slash(s@),
        parts.len() >= 1,
{
    let n = s.unicode_len();
    let mut parts: Vec<String> = Vec::new();
    parts.push(String::new());
    proof {
        assert(s@.subrange(0, 0) =~= Seq::<char>::empty());
        assert(parts.deep_view() =~= spec_split_slash(s@.subrange(0, 0)));
    }
    let mut i: usize = 0;
    while i < n
        invariant
            i <= n,
            n == s@.len(),
            parts.len() >= 1,
            parts.deep_view() == spec_split_slash(s@.subrange(0, i as int)),
        decreases n - i,
    {
        let ghost prefix = s@.subrange(0, i as int);
        let ghost next_prefix = s@.subrange(0, i + 1 as int);
        proof {
            assert(next_prefix.drop_last() =~= prefix);
            assert(next_prefix.last() == s@[i as int]);
        }
        let c = s.get_char(i);
        if c == '/' {
            parts.push(String::new());
            proof {
                assert(parts.deep_view() =~= spec_split_slash(next_prefix));
            }
        } else {
            let mut last = parts.pop().unwrap();
            string_push(&mut last, c);
            parts.push(last);
            proof {
                lemma_split_slash_len(prefix);
                assert(parts.deep_view() =~= spec_split_slash(next_prefix));
            }
        }
        i = i + 1;
    }
    proof {
        assert(s@.subrange(0, n as int) =~= s@);
        lemma_split_slash_len(s@);
    }
    parts
}

/// The identifier, if any, that a reference of two to four parts denotes.
pub open spec fn spec_parse_ident(s: Seq<char>) -> Option<IdentView> {
    let parts = spec_split_slash(s);
    if parts.len() == 2 && valid_part(parts[0]) && valid_part(parts[1]) {
        Some(IdentView { origin: parts[0], name: parts[1], version: None, release: None })
    } else if parts.len() == 3 && valid_part(parts[0]) && valid_part(parts[1]) && valid_part(
        parts[2],
    ) {
        Some(
            IdentView { origin: parts[0], name: parts[1], version: Some(parts[2]), release: None },
        )
    } else if parts.len() == 4 && valid_part(parts[0]) && valid_part(parts[1]) && valid_part(
        parts[2],
    ) && valid_part(parts[3]) {
        Some(
            IdentView {
                origin: parts[0],
                name: parts[1],
                version: Some(parts[2]),
                release: Some(parts[3]),
            },
        )
    } else {
        None
    }
}

impl PackageIdent {
    /// Reads a package identifier of the form `origin/name[/version[/release]]`.
    pub fn parse(s: &str) -> (r: Result<PackageIdent, ExportError>)
        ensures
            match r {
                Ok(id) => spec_parse_ident(s@) == Some(id@) && id@.wf(),
                Err(e) => spec_parse_ident(s@) is None && (e matches ExportError::InvalidPackageIdent { value } && value@ == s@),
            },
    {
        proof {
            lemma_split_slash_no_slash(s@);
        }
        let mut parts = split_slash(s);
        let ok = {
            if parts.len() < 2 || parts.len() > 4 {
                false
            } else {
                let mut all_nonempty = true;
                let mut k: usize = 0;
                while k < parts.len()
                    invariant
                        k <= parts.len(),
                        all_nonempty <==> (forall|m: int|
                            0 <= m < k ==> parts.deep_view()[m].len() > 0),
                    decreases parts.len() - k,
                {
                    proof {
                        assert(parts.deep_view()[k as int] == parts@[k as int]@);
                    }
                    if parts[k].as_str().is_empty() {
                        all_nonempty = false;
                    }
                    k = k + 1;
                }
                all_nonempty
            }
        };
        if !ok {
            return Err(ExportError::InvalidPackageIdent { value: String::from_str(s) });
        }
        let release = if parts.len() == 4 {
            Some(parts.pop().unwrap())
        } else {
            None
        };
        let version = if parts.len() == 3 {
            Some(parts.pop().unwrap())
        } else {
            None
        };
        let name = parts.pop().unwrap();
        let origin = parts.pop().unwrap();
        Ok(PackageIdent { origin, name, version, release })
    }

    /// A copy with the same characters in every component.
    pub fn clone_ident(&self) -> (r: PackageIdent)
        ensures
            r@ == self@,
    {
        PackageIdent {
            origin: self.origin.clone(),
            name: self.name.clone(),
            version: match &self.version {
                Some(v) => Some(v.clone()),
                None => None,
            },
            release: match &self.release {
                Some(r) => Some(r.clone()),
                None => None,
            },
        }
    }

    /// Both a version and a release are present.
    pub fn fully_qualified(&self) -> (r: bool)
        ensures
            r == self@.fully_qualified(),
    {
        self.version.is_some() && self.release.is_some()
    }

    /// The text of the identifier: the parts joined with `/`.
    pub fn to_text(&self) -> (r: String)
        ensures
            r@ == self@.text(),
    {
        proof {
            reveal_strlit("/");
        }
        let mut t = self.origin.clone();
        t.append("/");
        t.append(self.name.as_str());
        match &self.version {
            Some(v) => {
                t.append("/");
                t.append(v.as_str());
                match &self.release {
                    Some(r) => {
                        t.append("/");
                        t.append(r.as_str());
                    },
                    None => {},
                }
            },
            None => {},
        }
        proof {
            assert(t@ =~= self@.text());
        }
        t
    }
}

/// Accepts a value exactly when it is a well-formed origin name; otherwise
/// reports why in the shape command-line validators use.
pub fn valid_origin(val: String) -> (r: Result<(), String>)
    ensures
        match r {
            Ok(_) => spec_valid_origin(val@),
            Err(m) => !spec_valid_origin(val@) && m@ == "'"@ + val@
                + "' is not valid. A valid origin contains a-z, 0-9, and _ or - after the first character"@,
        },
{
    if is_valid_origin_name(val.as_str()) {
        Ok(())
    } else {
        let m = String::from_str("'").concat(val.as_str()).concat(
            "' is not valid. A valid origin contains a-z, 0-9, and _ or - after the first character",
        );
        Err(m)
    }
}

/// Accepts a value exactly when it reads as a fully qualified package
/// identifier; otherwise reports why in the shape command-line validators use.
pub fn valid_fully_qualified_ident(val: String) -> (r: Result<(), String>)
    ensures
        match r {
            Ok(_) => spec_parse_ident(val@) matches Some(id) && id.fully_qualified(),
            Err(m) => !(spec_parse_ident(val@) matches Some(id) && id.fully_qualified()) && m@
                == "'"@ + val@
                + "' is not valid. Fully qualified package identifiers have the form origin/name/version/release"@,
        },
{
    let ok = match PackageIdent::parse(val.as_str()) {
        Ok(id) => id.fully_qualified(),
        Err(_) => false,
    };
    if ok {
        Ok(())
    } else {
        let m = String::from_str("'").concat(val.as_str()).concat(
            "' is not valid. Fully qualified package identifiers have the form origin/name/version/release",
        );
        Err(m)
    }
}

} // verus!
