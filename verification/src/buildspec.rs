//! The build specification and its resolution.
//!
//! A specification is an ordered list of component references — package
//! identifiers, possibly unqualified, or paths to pre-built artifacts —
//! plus a base image and a default origin. Resolution turns every
//! reference into a concrete installable unit, or fails naming the first
//! reference that cannot be resolved; it never proceeds with a partially
//! resolved specification.

use vstd::prelude::*;

use crate::error::ExportError;
use crate::ident::{
    lemma_split_slash_no_slash, spec_parse_ident, spec_split_slash, split_slash, valid_part,
    IdentView, PackageIdent,
};

verus! {

broadcast use vstd::string::group_string_axioms;

/// The mathematical model of a resolved unit.
pub ghost enum UnitView {
    /// A pre-built artifact, installed from its file.
    Archive { path: Seq<char> },
    /// A fully qualified package.
    Package { ident: IdentView },
}

/// One concrete unit a specification resolved to.
#[derive(Debug)]
pub enum ResolvedUnit {
    /// A pre-built artifact, installed from its file.
    Archive { path: String },
    /// A fully qualified package.
    Package { ident: PackageIdent },
}

impl View for ResolvedUnit {
    type V = UnitView;

    open spec fn view(&self) -> UnitView {
        match self {
            ResolvedUnit::Archive { path } => UnitView::Archive { path: path@ },
            ResolvedUnit::Package { ident } => UnitView::Package { ident: ident@ },
        }
    }
}

impl DeepView for ResolvedUnit {
    type V = UnitView;

    open spec fn deep_view(&self) -> UnitView {
        self.view()
    }
}

/// An ordered build specification: what goes into one image.
#[derive(Debug)]
pub struct BuildSpec {
    /// The component references to include, in order; the first one is the
    /// primary component the image is named after.
    pub idents_or_archives: Vec<String>,
    /// The base image the components are layered onto.
    pub base_image: String,
    /// The origin completing unqualified references.
    pub default_origin: String,
}

impl BuildSpec {
    /// At least one component reference is present.
    pub open spec fn wf(&self) -> bool {
        self.idents_or_archives.len() >= 1
    }
}

/// Whether a reference names a pre-built artifact file.
pub open spec fn spec_is_artifact(s: Seq<char>) -> bool {
    s.len() >= 5 && s.subrange(s.len() - 5, s.len() as int) == ".hart"@
}

/// Decides whether `s` ends with `suffix`.
pub fn str_ends_with(s: &str, suffix: &str) -> (r: bool)
    ensures
        r == (s@.len() >= suffix@.len() && s@.subrange(
            s@.len() - suffix@.len(),
            s@.len() as int,
        ) == suffix@),
{
    let n = s.unicode_len();
    let m = suffix.unicode_len();
    if m > n {
        return false;
    }
    let ghost tail = s@.subrange(s@.len() - suffix@.len(), s@.len() as int);
    let mut j: usize = 0;
    let mut eq = true;
    while j < m
        invariant
            n == s@.len(),
            m == suffix@.len(),
            m <= n,
            j <= m,
            eq ==> forall|k: int| 0 <= k < j ==> s@[n - m + k] == suffix@[k],
            !eq ==> exists|k: int| 0 <= k < j && s@[n - m + k] != suffix@[k],
        decreases m - j,
    {
        if s.get_char(n - m + j) != suffix.get_char(j) {
            eq = false;
        }
        j = j + 1;
    }
    proof {
        if eq {
            assert(tail =~= suffix@);
        } else {
            let k = choose|k: int| 0 <= k < m && s@[n - m + k] != suffix@[k];
            assert(tail[k] == s@[n - m + k]);
        }
    }
    eq
}

/// The identifier a reference denotes once the default origin is applied:
/// a single-part reference is a name in the default origin, anything else
/// must already carry its origin.
pub open spec fn spec_qualify(s: Seq<char>, origin: Seq<char>) -> Option<IdentView> {
    let parts = spec_split_slash(s);
    if parts.len() == 1 && valid_part(parts[0]) {
        Some(IdentView { origin, name: parts[0], version: None, release: None })
    } else {
        spec_parse_ident(s)
    }
}

/// Whether a depot answer is a fully qualified completion of a query:
/// same origin and name, and the same version wherever the query fixed one.
pub open spec fn spec_answer_matches(q: IdentView, a: IdentView) -> bool {
    &&& a.fully_qualified()
    &&& a.origin == q.origin
    &&& a.name == q.name
    &&& (q.version is Some ==> a.version == q.version)
}

/// What one reference resolves to, given the depot's answer for it.
pub open spec fn spec_resolve_one(
    r: Seq<char>,
    origin: Seq<char>,
    answer: Option<IdentView>,
) -> Option<UnitView> {
    if spec_is_artifact(r) {
        Some(UnitView::Archive { path: r })
    } else {
        match spec_qualify(r, origin) {
            None => None,
            Some(q) => if q.fully_qualified() {
                Some(UnitView::Package { ident: q })
            } else {
                match answer {
                    Some(a) => if spec_answer_matches(q, a) {
                        Some(UnitView::Package { ident: a })
                    } else {
                        None
                    },
                    None => None,
                }
            },
        }
    }
}

/// What a whole reference list resolves to: every unit in order, or the
/// first reference that cannot be resolved. Resolution is all-or-nothing.
pub open spec fn spec_resolve(
    refs: Seq<Seq<char>>,
    origin: Seq<char>,
    answers: Seq<Option<IdentView>>,
) -> Result<Seq<UnitView>, Seq<char>>
    decreases refs.len(),
{
    if refs.len() == 0 {
        Ok(Seq::empty())
    } else {
        match spec_resolve_one(refs[0], origin, answers[0]) {
            None => Err(refs[0]),
            Some(u) => match spec_resolve(refs.drop_first(), origin, answers.drop_first()) {
                Ok(rest) => Ok(seq![u] + rest),
                Err(e) => Err(e),
            },
        }
    }
}

/// Resolution is deterministic: the same references, default origin, and
/// depot answers always resolve to the same fully qualified set.
pub proof fn lemma_resolution_deterministic(
    refs1: Seq<Seq<char>>,
    origin1: Seq<char>,
    answers1: Seq<Option<IdentView>>,
    refs2: Seq<Seq<char>>,
    origin2: Seq<char>,
    answers2: Seq<Option<IdentView>>,
)
    requires
        refs1 == refs2,
        origin1 == origin2,
        answers1 == answers2,
    ensures
        spec_resolve(refs1, origin1, answers1) == spec_resolve(refs2, origin2, answers2),
{
}

/// Resolves one reference, given the depot's answer for it.
fn resolve_one(r: &String, origin: &String, answer: &Option<PackageIdent>) -> (u: Option<
    ResolvedUnit,
>)
    ensures
        match u {
            Some(unit) => spec_resolve_one(r@, origin@, answer.deep_view()) == Some(unit@),
            None => spec_resolve_one(r@, origin@, answer.deep_view()) is None,
        },
{
    proof {
        reveal_strlit(".hart");
        lemma_split_slash_no_slash(r@);
    }
    if str_ends_with(r.as_str(), ".hart") {
        return Some(ResolvedUnit::Archive { path: r.clone() });
    }
    let parts = split_slash(r.as_str());
    let q: Option<PackageIdent> = if parts.len() == 1 {
        proof {
            assert(parts.deep_view()[0] == parts@[0]@);
        }
        if !parts[0].as_str().is_empty() {
            let mut parts = parts;
            let name = parts.pop().unwrap();
            Some(
                PackageIdent {
                    origin: origin.clone(),
                    name,
                    version: None,
                    release: None,
                },
            )
        } else {
            None
        }
    } else {
        match PackageIdent::parse(r.as_str()) {
            Ok(id) => Some(id),
            Err(_) => None,
        }
    };
    match q {
        None => None,
        Some(q) => {
            if q.fully_qualified() {
                Some(ResolvedUnit::Package { ident: q })
            } else {
                match answer {
                    Some(a) => {
                        let matches_query = a.fully_qualified() && a.origin.eq(&q.origin)
                            && a.name.eq(&q.name) && (match &q.version {
                            Some(v) => match &a.version {
                                Some(av) => av.eq(v),
                                None => false,
                            },
                            None => true,
                        });
                        if matches_query {
                            Some(ResolvedUnit::Package { ident: a.clone_ident() })
                        } else {
                            None
                        }
                    },
                    None => None,
                }
            }
        },
    }
}

impl BuildSpec {
    /// Resolves every reference of the specification, using the depot's
    /// answer `answers[i]` for the reference at `i` wherever the reference
    /// itself does not already name a concrete unit. All-or-nothing: the
    /// first unresolvable reference fails the whole resolution, naming it.
    pub fn resolve(&self, answers: &Vec<Option<PackageIdent>>) -> (r: Result<
        Vec<ResolvedUnit>,
        ExportError,
    >)
        requires
            answers.len() == self.idents_or_archives.len(),
        ensures
            match r {
                Ok(units) => spec_resolve(
                    self.idents_or_archives.deep_view(),
                    self.default_origin@,
                    answers.deep_view(),
                ) == Ok::<_, Seq<char>>(units.deep_view()),
                Err(e) => e matches ExportError::Resolution { reference } && spec_resolve(
                    self.idents_or_archives.deep_view(),
                    self.default_origin@,
                    answers.deep_view(),
                ) == Err::<Seq<UnitView>, _>(reference@),
            },
    {
        let ghost refs_dv = self.idents_or_archives.deep_view();
        let ghost ans_dv = answers.deep_view();
        let mut units: Vec<ResolvedUnit> = Vec::new();
        let n = self.idents_or_archives.len();
        proof {
            assert(refs_dv.skip(0) =~= refs_dv);
            assert(ans_dv.skip(0) =~= ans_dv);
            match spec_resolve(refs_dv, self.default_origin@, ans_dv) {
                Ok(rest) => {
                    assert(units.deep_view() + rest =~= rest);
                },
                Err(e) => {},
            }
        }
        let mut i: usize = 0;
        while i < n
            invariant
                i <= n,
                n == self.idents_or_archives.len(),
                n == answers.len(),
                refs_dv == self.idents_or_archives.deep_view(),
                ans_dv == answers.deep_view(),
                units.len() == i,
                spec_resolve(refs_dv, self.default_origin@, ans_dv) == (match spec_resolve(
                    refs_dv.skip(i as int),
                    self.default_origin@,
                    ans_dv.skip(i as int),
                ) {
                    Ok(rest) => Ok::<_, Seq<char>>(units.deep_view() + rest),
                    Err(e) => Err::<Seq<UnitView>, _>(e),
                }),
            decreases n - i,
        {
            let ghost tail_refs = refs_dv.skip(i as int);
            let ghost tail_ans = ans_dv.skip(i as int);
            proof {
                assert(tail_refs[0] == refs_dv[i as int]);
                assert(tail_ans[0] == ans_dv[i as int]);
                assert(tail_refs.drop_first() =~= refs_dv.skip(i + 1));
                assert(tail_ans.drop_first() =~= ans_dv.skip(i + 1));
                assert(self.idents_or_archives.deep_view()[i as int]
                    == self.idents_or_archives@[i as int]@);
                assert(answers.deep_view()[i as int] == answers@[i as int].deep_view());
            }
            match resolve_one(&self.idents_or_archives[i], &self.default_origin, &answers[i]) {
                Some(u) => {
                    let ghost old_units = units.deep_view();
                    let ghost uv = u@;
                    units.push(u);
                    proof {
                        assert(units.deep_view() =~= old_units.push(uv));
                        match spec_resolve(
                            refs_dv.skip(i + 1),
                            self.default_origin@,
                            ans_dv.skip(i + 1),
                        ) {
                            Ok(rest) => {
                                assert(old_units + (seq![uv] + rest) =~= units.deep_view() + rest);
                            },
                            Err(e) => {},
                        }
                    }
                },
                None => {
                    let reference = self.idents_or_archives[i].clone();
                    return Err(ExportError::Resolution { reference });
                },
            }
            i = i + 1;
        }
        proof {
            assert(refs_dv.skip(n as int) =~= Seq::<Seq<char>>::empty());
            assert(ans_dv.skip(n as int) =~= Seq::<Option<IdentView>>::empty());
            assert(units.deep_view() + Seq::<UnitView>::empty() =~= units.deep_view());
        }
        Ok(units)
    }
}

} // verus!
