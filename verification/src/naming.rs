//! The image naming policy: which name and which tags an image receives.
//!
//! Tag generation is a pure function of the policy and the resolved
//! identifier. Candidates are considered in a fixed precedence order —
//! custom tag, version-release, version, latest — and duplicates are
//! dropped, keeping the first occurrence; when the policy yields nothing,
//! a default tag is used so the list is never empty.

use vstd::prelude::*;

use crate::ident::{IdentView, PackageIdent};
use crate::registry::RegistryType;

verus! {

broadcast use vstd::string::group_string_axioms;

/// The mathematical model of a naming policy.
pub ghost struct NamingView {
    pub custom_image_name: Option<Seq<char>>,
    pub latest_tag: bool,
    pub version_tag: bool,
    pub version_release_tag: bool,
    pub custom_tag: Option<Seq<char>>,
    pub registry_url: Option<Seq<char>>,
    pub registry_type: RegistryType,
}

/// An image naming policy: the naming and tagging intentions for an image.
#[derive(Debug, Clone)]
pub struct Naming {
    /// An optional custom image name overriding the computed default.
    pub custom_image_name: Option<String>,
    /// Whether to tag the image with `latest`.
    pub latest_tag: bool,
    /// Whether to tag the image with the identifier's version.
    pub version_tag: bool,
    /// Whether to tag the image with the identifier's version and release.
    pub version_release_tag: bool,
    /// An optional custom tag value.
    pub custom_tag: Option<String>,
    /// An optional registry to publish to, used as a prefix of every pushed tag.
    pub registry_url: Option<String>,
    /// The kind of registry being published to.
    pub registry_type: RegistryType,
}

impl View for Naming {
    type V = NamingView;

    open spec fn view(&self) -> NamingView {
        NamingView {
            custom_image_name: match self.custom_image_name {
                Some(s) => Some(s@),
                None => None,
            },
            latest_tag: self.latest_tag,
            version_tag: self.version_tag,
            version_release_tag: self.version_release_tag,
            custom_tag: match self.custom_tag {
                Some(s) => Some(s@),
                None => None,
            },
            registry_url: match self.registry_url {
                Some(s) => Some(s@),
                None => None,
            },
            registry_type: self.registry_type,
        }
    }
}

/// The version-release tag of an identifier: `version-release`.
pub open spec fn spec_version_release_tag(id: IdentView) -> Seq<char>
    recommends
        id.fully_qualified(),
{
    id.version.unwrap() + "-"@ + id.release.unwrap()
}

/// The tag candidates a policy declares, in precedence order:
/// custom tag, version-release, version, latest.
pub open spec fn tag_candidates(n: NamingView, id: IdentView) -> Seq<Seq<char>> {
    let s0: Seq<Seq<char>> = match n.custom_tag {
        Some(t) => seq![t],
        None => Seq::empty(),
    };
    let s1 = if n.version_release_tag {
        s0.push(spec_version_release_tag(id))
    } else {
        s0
    };
    let s2 = if n.version_tag {
        s1.push(id.version.unwrap())
    } else {
        s1
    };
    if n.latest_tag {
        s2.push("latest"@)
    } else {
        s2
    }
}

/// Drops repeated elements, keeping the first occurrence of each.
pub open spec fn spec_dedup(s: Seq<Seq<char>>) -> Seq<Seq<char>>
    decreases s.len(),
{
    if s.len() == 0 {
        Seq::empty()
    } else {
        let front = spec_dedup(s.drop_last());
        if front.contains(s.last()) {
            front
        } else {
            front.push(s.last())
        }
    }
}

/// `a` is obtained from `b` by deleting elements without reordering.
pub open spec fn is_subsequence<T>(a: Seq<T>, b: Seq<T>) -> bool
    decreases b.len(),
{
    if a.len() == 0 {
        true
    } else if b.len() == 0 {
        false
    } else if a.last() == b.last() {
        is_subsequence(a.drop_last(), b.drop_last())
    } else {
        is_subsequence(a, b.drop_last())
    }
}

/// The tag list a policy produces for a resolved identifier: the deduplicated
/// candidates, or the default tag when the policy yields nothing.
pub open spec fn spec_tag_list(n: NamingView, id: IdentView) -> Seq<Seq<char>> {
    let d = spec_dedup(tag_candidates(n, id));
    if d.len() == 0 {
        seq!["latest"@]
    } else {
        d
    }
}

/// The image name a policy produces: the custom name if present, else
/// `origin/name` from the identifier.
pub open spec fn spec_image_name(n: NamingView, id: IdentView) -> Seq<char> {
    match n.custom_image_name {
        Some(s) => s,
        None => id.origin + "/"@ + id.name,
    }
}

proof fn lemma_contains_split_last<T>(s: Seq<T>, x: T)
    requires
        s.len() > 0,
    ensures
        s.contains(x) <==> (s.drop_last().contains(x) || s.last() == x),
{
    if s.contains(x) {
        let i = choose|i: int| 0 <= i < s.len() && s[i] == x;
        if i < s.len() - 1 {
            assert(s.drop_last()[i] == x);
        }
    }
    if s.drop_last().contains(x) {
        let i = choose|i: int| 0 <= i < s.drop_last().len() && s.drop_last()[i] == x;
        assert(s[i] == x);
    }
    if s.last() == x {
        assert(s[s.len() - 1] == x);
    }
}

/// Deduplication keeps exactly the elements of its input.
pub proof fn lemma_dedup_same_elements(s: Seq<Seq<char>>)
    ensures
        forall|x: Seq<char>| #[trigger] spec_dedup(s).contains(x) <==> s.contains(x),
    decreases s.len(),
{
    if s.len() > 0 {
        lemma_dedup_same_elements(s.drop_last());
        let front = spec_dedup(s.drop_last());
        assert forall|x: Seq<char>| #[trigger] spec_dedup(s).contains(x) <==> s.contains(x) by {
            lemma_contains_split_last(s, x);
            if !front.contains(s.last()) {
                lemma_contains_split_last(front.push(s.last()), x);
                assert(front.push(s.last()).drop_last() =~= front);
            }
        }
    }
}

/// Deduplication never repeats an element.
pub proof fn lemma_dedup_no_duplicates(s: Seq<Seq<char>>)
    ensures
        forall|i: int, j: int|
            0 <= i < j < spec_dedup(s).len() ==> spec_dedup(s)[i] != spec_dedup(s)[j],
    decreases s.len(),
{
    if s.len() > 0 {
        lemma_dedup_no_duplicates(s.drop_last());
        let front = spec_dedup(s.drop_last());
        if !front.contains(s.last()) {
            let d = front.push(s.last());
            assert forall|i: int, j: int| 0 <= i < j < d.len() implies d[i] != d[j] by {
                if j < d.len() - 1 {
                    assert(d[i] == front[i] && d[j] == front[j]);
                } else {
                    assert(d[j] == s.last());
                    assert(!front.contains(s.last()));
                    assert(front[i] == d[i]);
                }
            }
        }
    }
}

proof fn lemma_subseq_drop_last<T>(a: Seq<T>, b: Seq<T>)
    requires
        is_subsequence(a, b),
        a.len() > 0,
    ensures
        is_subsequence(a.drop_last(), b),
    decreases b.len(),
{
    if b.len() == 0 {
        assert(false);
    } else if a.last() == b.last() {
        if a.drop_last().len() > 0 && a.drop_last().last() == b.last() {
            lemma_subseq_drop_last(a.drop_last(), b.drop_last());
        }
    } else {
        lemma_subseq_drop_last(a, b.drop_last());
        if a.drop_last().len() > 0 && a.drop_last().last() == b.last() {
            lemma_subseq_drop_last(a.drop_last(), b.drop_last());
        }
    }
}

proof fn lemma_subseq_extend<T>(a: Seq<T>, b: Seq<T>, x: T)
    requires
        is_subsequence(a, b),
    ensures
        is_subsequence(a, b.push(x)),
{
    if a.len() > 0 {
        assert(b.push(x).drop_last() =~= b);
        assert(b.push(x).last() == x);
        if a.last() == x {
            lemma_subseq_drop_last(a, b);
        }
    }
}

/// Deduplication preserves the order of its input.
pub proof fn lemma_dedup_subsequence(s: Seq<Seq<char>>)
    ensures
        is_subsequence(spec_dedup(s), s),
    decreases s.len(),
{
    if s.len() > 0 {
        lemma_dedup_subsequence(s.drop_last());
        let front = spec_dedup(s.drop_last());
        if front.contains(s.last()) {
            lemma_subseq_extend(front, s.drop_last(), s.last());
            assert(s.drop_last().push(s.last()) =~= s);
        } else {
            let d = front.push(s.last());
            assert(d.drop_last() =~= front);
            assert(s.drop_last().push(s.last()) =~= s);
        }
    }
}

/// The produced tag list is never empty, holds no duplicate, keeps exactly
/// the candidates the policy declares (or the default tag when it declares
/// none), and preserves the declared precedence order: custom tag first,
/// then version-release, then version, then latest.
pub proof fn lemma_tag_list_well_formed(n: NamingView, id: IdentView)
    ensures
        spec_tag_list(n, id).len() >= 1,
        forall|i: int, j: int|
            0 <= i < j < spec_tag_list(n, id).len() ==> spec_tag_list(n, id)[i] != spec_tag_list(
                n,
                id,
            )[j],
        forall|x: Seq<char>| #[trigger] tag_candidates(n, id).contains(x) <==> spec_dedup(
            tag_candidates(n, id),
        ).contains(x),
        tag_candidates(n, id).len() > 0 ==> spec_tag_list(n, id) == spec_dedup(
            tag_candidates(n, id),
        ) && is_subsequence(spec_tag_list(n, id), tag_candidates(n, id)),
        tag_candidates(n, id).len() == 0 ==> spec_tag_list(n, id) == seq!["latest"@],
{
    let c = tag_candidates(n, id);
    lemma_dedup_same_elements(c);
    lemma_dedup_no_duplicates(c);
    lemma_dedup_subsequence(c);
    if c.len() > 0 {
        assert(c.contains(c.last())) by {
            assert(c[c.len() - 1] == c.last());
        }
        assert(spec_dedup(c).len() > 0);
    }
}

/// Whether a vector of strings holds one with the given characters.
pub fn vec_contains_string(v: &Vec<String>, s: &String) -> (r: bool)
    ensures
        r == v.deep_view().contains(s@),
{
    let mut i: usize = 0;
    while i < v.len()
        invariant
            i <= v.len(),
            forall|m: int| 0 <= m < i ==> v.deep_view()[m] != s@,
        decreases v.len() - i,
    {
        proof {
            assert(v.deep_view()[i as int] == v@[i as int]@);
        }
        if v[i].eq(s) {
            return true;
        }
        i = i + 1;
    }
    false
}

impl Naming {
    /// The image name: the custom name if one was given, else `origin/name`.
    pub fn image_name(&self, ident: &PackageIdent) -> (r: String)
        ensures
            r@ == spec_image_name(self@, ident@),
    {
        match &self.custom_image_name {
            Some(s) => s.clone(),
            None => {
                proof {
                    reveal_strlit("/");
                }
                let mut t = ident.origin.clone();
                t.append("/");
                t.append(ident.name.as_str());
                proof {
                    assert(t@ =~= ident@.origin + "/"@ + ident@.name);
                }
                t
            },
        }
    }

    /// The tag list for a resolved identifier: the declared candidates in
    /// precedence order, first occurrences kept, never empty.
    pub fn tag_list(&self, ident: &PackageIdent) -> (r: Vec<String>)
        requires
            ident@.fully_qualified(),
        ensures
            r.deep_view() == spec_tag_list(self@, ident@),
            r.len() >= 1,
    {
        let mut cands: Vec<String> = Vec::new();
        match &self.custom_tag {
            Some(t) => {
                cands.push(t.clone());
            },
            None => {},
        }
        if self.version_release_tag {
            proof {
                reveal_strlit("-");
            }
            let mut t = ident.version.as_ref().unwrap().clone();
            t.append("-");
            t.append(ident.release.as_ref().unwrap().as_str());
            proof {
                assert(t@ =~= spec_version_release_tag(ident@));
            }
            cands.push(t);
        }
        if self.version_tag {
            cands.push(ident.version.as_ref().unwrap().clone());
        }
        if self.latest_tag {
            cands.push(String::from_str("latest"));
        }
        proof {
            assert(cands.deep_view() =~= tag_candidates(self@, ident@));
        }
        let ghost cdv = cands.deep_view();
        let mut tags: Vec<String> = Vec::new();
        proof {
            assert(cdv.subrange(0, 0) =~= Seq::<Seq<char>>::empty());
            assert(tags.deep_view() =~= spec_dedup(cdv.subrange(0, 0)));
        }
        let mut i: usize = 0;
        while i < cands.len()
            invariant
                i <= cands.len(),
                cdv == cands.deep_view(),
                cdv.len() == cands.len(),
                tags.deep_view() == spec_dedup(cdv.subrange(0, i as int)),
            decreases cands.len() - i,
        {
            let ghost pre = cdv.subrange(0, i as int);
            let ghost post = cdv.subrange(0, i + 1 as int);
            proof {
                assert(post.drop_last() =~= pre);
                assert(post.last() == cdv[i as int]);
                assert(cands.deep_view()[i as int] == cands@[i as int]@);
            }
            if !vec_contains_string(&tags, &cands[i]) {
                let t = cands[i].clone();
                tags.push(t);
                proof {
                    assert(tags.deep_view() =~= spec_dedup(post));
                }
            } else {
                proof {
                    assert(tags.deep_view() =~= spec_dedup(post));
                }
            }
            i = i + 1;
        }
        proof {
            assert(cdv.subrange(0, cands.len() as int) =~= cdv);
        }
        if tags.len() == 0 {
            tags.push(String::from_str("latest"));
            proof {
                assert(tags.deep_view() =~= seq!["latest"@]);
            }
        }
        tags
    }
}

} // verus!
