//! Teams, their members and the counts of their annotation classes.
use crate::annotation::AnnotationClass;
use crate::text::{decimal_text, u32_to_text};
use vstd::prelude::*;

verus! {

/// A team as the local configuration knows it. `datasets_dir` is a file-system
/// path, held as text.
#[derive(Debug, Default, PartialEq, Eq, Clone)]
pub struct Team {
    pub slug: String,
    pub datasets_dir: Option<String>,
    pub api_key: Option<String>,
    pub team_id: Option<u32>,
}

impl Team {
    pub fn new(
        slug: String,
        datasets_dir: Option<String>,
        api_key: Option<String>,
        team_id: Option<u32>,
    ) -> (r: Self)
        ensures
            r.slug == slug,
            r.datasets_dir == datasets_dir,
            r.api_key == api_key,
            r.team_id == team_id,
    {
        Team { slug, datasets_dir, api_key, team_id }
    }

    pub fn slug(&self) -> (r: &str)
        ensures
            r@ == self.slug@,
    {
        self.slug.as_str()
    }

    pub fn datasets_dir(&self) -> (r: &Option<String>)
        ensures
            *r == self.datasets_dir,
    {
        &self.datasets_dir
    }

    pub fn api_key(&self) -> (r: &Option<String>)
        ensures
            *r == self.api_key,
    {
        &self.api_key
    }
}

#[derive(Debug, Default, PartialEq, Eq, Clone)]
pub struct TeamMember {
    pub id: u32,
    pub email: Option<String>,
    pub first_name: Option<String>,
    pub last_name: Option<String>,
    pub role: Option<String>,
    pub team_id: u32,
    pub user_id: u32,
}

/// The text of an optional field: the empty text when it is absent.
pub open spec fn text_or_empty(o: Option<String>) -> Seq<char> {
    match o {
        Some(s) => s@,
        None => Seq::empty(),
    }
}

/// How a member is shown: `{id-<user id>}<first name> <last name> (<email>)`.
pub open spec fn member_text(m: TeamMember) -> Seq<char> {
    "{id-"@ + decimal_text(m.user_id as nat) + "}"@ + text_or_empty(m.first_name) + " "@
        + text_or_empty(m.last_name) + " ("@ + text_or_empty(m.email) + ")"@
}

/// Whether `needle` occurs in `hay` as a run of consecutive characters.
pub open spec fn contains_text(hay: Seq<char>, needle: Seq<char>) -> bool {
    exists|i: int| 0 <= i <= hay.len() - needle.len() && #[trigger] hay.subrange(i, i + needle.len()) == needle
}

fn append_opt(s: &mut String, o: &Option<String>)
    ensures
        final(s)@ == old(s)@ + text_or_empty(*o),
{
    match o {
        Some(t) => s.append(t.as_str()),
        None => {
            assert(old(s)@ + Seq::<char>::empty() =~= old(s)@);
        },
    }
}

/// Whether `needle` occurs in `hay`.
fn text_contains(hay: &str, needle: &str) -> (r: bool)
    ensures
        r == contains_text(hay@, needle@),
{
    let n = hay.unicode_len();
    let m = needle.unicode_len();
    if m > n {
        return false;
    }
    let mut i: usize = 0;
    while i <= n - m
        invariant
            n == hay@.len(),
            m == needle@.len(),
            m <= n,
            forall|k: int| 0 <= k < i ==> #[trigger] hay@.subrange(k, k + m) != needle@,
        decreases n - m + 1 - i,
    {
        let mut j: usize = 0;
        while j < m && hay.get_char(i + j) == needle.get_char(j)
            invariant
                n == hay@.len(),
                m == needle@.len(),
                i + m <= n,
                j <= m,
                forall|q: int| 0 <= q < j ==> hay@[i + q] == needle@[q],
            decreases m - j,
        {
            j = j + 1;
        }
        if j == m {
            assert(hay@.subrange(i as int, i + m) =~= needle@);
            return true;
        }
        assert(hay@.subrange(i as int, i + m)[j as int] != needle@[j as int]);
        i = i + 1;
    }
    false
}

impl TeamMember {
    /// The member as shown to people; an absent name or email shows as empty.
    pub fn to_string(&self) -> (r: String)
        ensures
            r@ == member_text(*self),
    {
        let mut s = String::from_str("{id-");
        s.append(u32_to_text(self.user_id).as_str());
        s.append("}");
        append_opt(&mut s, &self.first_name);
        s.append(" ");
        append_opt(&mut s, &self.last_name);
        s.append(" (");
        append_opt(&mut s, &self.email);
        s.append(")");
        assert(s@ =~= member_text(*self));
        s
    }
}

/// The positions, in order, of the members whose email contains `email` (an
/// absent email counts as empty).
pub fn find_team_members_by_email(members: &[TeamMember], email: &str) -> (r: Vec<usize>)
    ensures
        forall|k: int| 0 <= k < r@.len() ==> #[trigger] r@[k] < members@.len(),
        forall|a: int, b: int| 0 <= a < b < r@.len() ==> r@[a] < r@[b],
        forall|i: int| 0 <= i < members@.len() ==> (r@.contains(i as usize) <==> contains_text(
            text_or_empty(#[trigger] members@[i].email),
            email@,
        )),
{
    let mut r: Vec<usize> = Vec::new();
    let mut i: usize = 0;
    while i < members.len()
        invariant
            i <= members@.len(),
            forall|k: int| 0 <= k < r@.len() ==> #[trigger] r@[k] < i,
            forall|a: int, b: int| 0 <= a < b < r@.len() ==> r@[a] < r@[b],
            forall|q: int| 0 <= q < i ==> (r@.contains(q as usize) <==> contains_text(
                text_or_empty(#[trigger] members@[q].email),
                email@,
            )),
        decreases members@.len() - i,
    {
        let found = match &members[i].email {
            Some(e) => text_contains(e.as_str(), email),
            None => text_contains("", email),
        };
        proof {
            if members@[i as int].email is None {
                reveal_strlit("");
                assert(""@ =~= text_or_empty(members@[i as int].email));
            }
        }
        let ghost before = r@;
        if found {
            r.push(i);
            assert(r@[r@.len() - 1] == i);
        }
        proof {
            assert forall|q: int| 0 <= q < i + 1 implies (r@.contains(q as usize) <==> contains_text(
                text_or_empty(#[trigger] members@[q].email),
                email@,
            )) by {
                if q < i {
                    if before.contains(q as usize) {
                        let k = choose|k: int| 0 <= k < before.len() && before[k] == q as usize;
                        assert(r@[k] == q as usize);
                    }
                    if r@.contains(q as usize) {
                        let k = choose|k: int| 0 <= k < r@.len() && r@[k] == q as usize;
                        if k < before.len() {
                            assert(before[k] == q as usize);
                        }
                    }
                } else {
                    if found {
                        assert(r@[r@.len() - 1] == q as usize);
                    } else {
                        if r@.contains(q as usize) {
                            let k = choose|k: int| 0 <= k < r@.len() && r@[k] == q as usize;
                            assert(r@[k] < i);
                        }
                    }
                }
            }
        }
        i = i + 1;
    }
    r
}

#[derive(Debug, Default, Clone, PartialEq, Eq)]
pub struct TypeCount {
    pub count: u32,
    pub id: Option<u32>,
    pub name: Option<String>,
}

#[derive(Debug, Default, Clone, PartialEq, Eq)]
pub struct TeamAnnotationClasses {
    pub annotation_classes: Vec<AnnotationClass>,
    pub type_counts: Vec<TypeCount>,
}

#[derive(Debug, Clone, PartialEq, Eq)]
pub struct MetadataSkeleton {
    pub skeleton_type: String,
}

} // verus!
