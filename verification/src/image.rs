//! The produced container image: its identity, its tags, and the exact
//! references the driver pushes, removes, and reports.

use vstd::prelude::*;

verus! {

broadcast use vstd::string::group_string_axioms;

/// A local image reference: `name:tag`.
pub open spec fn spec_image_ref(name: Seq<char>, tag: Seq<char>) -> Seq<char> {
    name + ":"@ + tag
}

/// The reference a tag is pushed under: prefixed with the registry when a
/// registry URL was given.
pub open spec fn spec_remote_ref(
    url: Option<Seq<char>>,
    name: Seq<char>,
    tag: Seq<char>,
) -> Seq<char> {
    match url {
        Some(u) => u + "/"@ + spec_image_ref(name, tag),
        None => spec_image_ref(name, tag),
    }
}

/// Builds the local reference `name:tag`.
pub fn image_ref(name: &str, tag: &str) -> (r: String)
    ensures
        r@ == spec_image_ref(name@, tag@),
{
    proof {
        reveal_strlit(":");
    }
    let mut t = String::from_str(name);
    t.append(":");
    t.append(tag);
    proof {
        assert(t@ =~= spec_image_ref(name@, tag@));
    }
    t
}

/// Builds the pushed reference for one tag.
pub fn remote_ref(url: Option<&String>, name: &str, tag: &str) -> (r: String)
    ensures
        r@ == spec_remote_ref(
            match url {
                Some(u) => Some(u@),
                None => None,
            },
            name@,
            tag@,
        ),
{
    let local = image_ref(name, tag);
    match url {
        Some(u) => {
            proof {
                reveal_strlit("/");
            }
            let mut t = u.clone();
            t.append("/");
            t.append(local.as_str());
            proof {
                assert(t@ =~= u@ + "/"@ + spec_image_ref(name@, tag@));
            }
            t
        },
        None => local,
    }
}

/// The local references of every tag, in order.
pub open spec fn spec_tag_refs(name: Seq<char>, tags: Seq<Seq<char>>) -> Seq<Seq<char>> {
    Seq::new(tags.len(), |i: int| spec_image_ref(name, tags[i]))
}

/// The pushed references of every tag, in order.
pub open spec fn spec_remote_refs(
    url: Option<Seq<char>>,
    name: Seq<char>,
    tags: Seq<Seq<char>>,
) -> Seq<Seq<char>> {
    Seq::new(tags.len(), |i: int| spec_remote_ref(url, name, tags[i]))
}

/// The lines of the build report: the image's name and identifier, then the
/// local reference of every applied tag.
pub open spec fn spec_report_lines(
    name: Seq<char>,
    id: Seq<char>,
    tags: Seq<Seq<char>>,
) -> Seq<Seq<char>> {
    seq!["name="@ + name, "id="@ + id] + spec_tag_refs(name, tags).map_values(
        |t: Seq<char>| "tag="@ + t,
    )
}

/// Copies a list of strings, keeping every character.
pub fn clone_string_vec(v: &Vec<String>) -> (r: Vec<String>)
    ensures
        r.deep_view() == v.deep_view(),
        r.len() == v.len(),
{
    let mut r: Vec<String> = Vec::new();
    let mut i: usize = 0;
    while i < v.len()
        invariant
            i <= v.len(),
            r.len() == i,
            r.deep_view() == v.deep_view().subrange(0, i as int),
        decreases v.len() - i,
    {
        proof {
            assert(v.deep_view()[i as int] == v@[i as int]@);
        }
        let t = v[i].clone();
        let ghost old_dv = r.deep_view();
        let ghost tv = t@;
        r.push(t);
        proof {
            assert(r.deep_view() =~= old_dv.push(tv));
            assert(r.deep_view() =~= v.deep_view().subrange(0, i + 1));
        }
        i = i + 1;
    }
    proof {
        assert(v.deep_view().subrange(0, v.len() as int) =~= v.deep_view());
    }
    r
}

/// A container image produced by one successful build: its name, the
/// identifier the engine assigned, and the tags that were applied, in order.
#[derive(Debug)]
pub struct ContainerImage {
    pub name: String,
    pub id: String,
    pub tags: Vec<String>,
}

impl ContainerImage {
    /// The image's name.
    pub fn image_name(&self) -> (r: &String)
        ensures
            r@ == self.name@,
    {
        &self.name
    }

    /// The identifier the engine assigned to the image.
    pub fn image_id(&self) -> (r: &String)
        ensures
            r@ == self.id@,
    {
        &self.id
    }

    /// The tags applied to the image, in order.
    pub fn image_tags(&self) -> (r: &Vec<String>)
        ensures
            r.deep_view() == self.tags.deep_view(),
    {
        &self.tags
    }

    /// The local reference of every tag, in order.
    pub fn tag_refs(&self) -> (r: Vec<String>)
        ensures
            r.deep_view() == spec_tag_refs(self.name@, self.tags.deep_view()),
    {
        let mut r: Vec<String> = Vec::new();
        let mut i: usize = 0;
        while i < self.tags.len()
            invariant
                i <= self.tags.len(),
                r.deep_view() == spec_tag_refs(self.name@, self.tags.deep_view()).subrange(
                    0,
                    i as int,
                ),
            decreases self.tags.len() - i,
        {
            proof {
                assert(self.tags.deep_view()[i as int] == self.tags@[i as int]@);
            }
            let t = image_ref(self.name.as_str(), self.tags[i].as_str());
            let ghost old_dv = r.deep_view();
            let ghost tv = t@;
            r.push(t);
            proof {
                assert(r.deep_view() =~= old_dv.push(tv));
                assert(r.deep_view() =~= spec_tag_refs(
                    self.name@,
                    self.tags.deep_view(),
                ).subrange(0, i + 1));
            }
            i = i + 1;
        }
        proof {
            let whole = spec_tag_refs(self.name@, self.tags.deep_view());
            assert(whole.subrange(0, whole.len() as int) =~= whole);
        }
        r
    }

    /// The pushed reference of every tag, in order.
    pub fn remote_refs(&self, url: Option<&String>) -> (r: Vec<String>)
        ensures
            r.deep_view() == spec_remote_refs(
                match url {
                    Some(u) => Some(u@),
                    None => None,
                },
                self.name@,
                self.tags.deep_view(),
            ),
    {
        let ghost u = match url {
            Some(u) => Some(u@),
            None => None,
        };
        let mut r: Vec<String> = Vec::new();
        let mut i: usize = 0;
        while i < self.tags.len()
            invariant
                i <= self.tags.len(),
                u == match url {
                    Some(u) => Some(u@),
                    None => None,
                },
                r.deep_view() == spec_remote_refs(u, self.name@, self.tags.deep_view()).subrange(
                    0,
                    i as int,
                ),
            decreases self.tags.len() - i,
        {
            proof {
                assert(self.tags.deep_view()[i as int] == self.tags@[i as int]@);
            }
            let t = remote_ref(url, self.name.as_str(), self.tags[i].as_str());
            let ghost old_dv = r.deep_view();
            let ghost tv = t@;
            r.push(t);
            proof {
                assert(r.deep_view() =~= old_dv.push(tv));
                assert(r.deep_view() =~= spec_remote_refs(
                    u,
                    self.name@,
                    self.tags.deep_view(),
                ).subrange(0, i + 1));
            }
            i = i + 1;
        }
        proof {
            let whole = spec_remote_refs(u, self.name@, self.tags.deep_view());
            assert(whole.subrange(0, whole.len() as int) =~= whole);
        }
        r
    }

    /// The human-readable build report: the image's name and identifier,
    /// then the local reference of every applied tag, one line each.
    pub fn report_lines(&self) -> (r: Vec<String>)
        ensures
            r.deep_view() == spec_report_lines(self.name@, self.id@, self.tags.deep_view()),
    {
        proof {
            reveal_strlit("name=");
            reveal_strlit("id=");
            reveal_strlit("tag=");
        }
        let mut r: Vec<String> = Vec::new();
        r.push(String::from_str("name=").concat(self.name.as_str()));
        r.push(String::from_str("id=").concat(self.id.as_str()));
        let refs = self.tag_refs();
        let ghost tagged = spec_tag_refs(self.name@, self.tags.deep_view()).map_values(
            |t: Seq<char>| "tag="@ + t,
        );
        let mut i: usize = 0;
        while i < refs.len()
            invariant
                i <= refs.len(),
                refs.deep_view() == spec_tag_refs(self.name@, self.tags.deep_view()),
                tagged == spec_tag_refs(self.name@, self.tags.deep_view()).map_values(
                    |t: Seq<char>| "tag="@ + t,
                ),
                r.deep_view() == seq!["name="@ + self.name@, "id="@ + self.id@] + tagged.subrange(
                    0,
                    i as int,
                ),
            decreases refs.len() - i,
        {
            proof {
                assert(refs.deep_view()[i as int] == refs@[i as int]@);
                assert(tagged[i as int] == "tag="@ + refs.deep_view()[i as int]);
            }
            let t = String::from_str("tag=").concat(refs[i].as_str());
            let ghost old_dv = r.deep_view();
            let ghost tv = t@;
            r.push(t);
            proof {
                assert(r.deep_view() =~= old_dv.push(tv));
                assert(r.deep_view() =~= seq!["name="@ + self.name@, "id="@ + self.id@]
                    + tagged.subrange(0, i + 1));
            }
            i = i + 1;
        }
        proof {
            assert(tagged.subrange(0, tagged.len() as int) =~= tagged);
        }
        r
    }
}

} // verus!
