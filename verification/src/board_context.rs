use vstd::prelude::*;
use uuid::Uuid;
use crate::ids::same_id;

verus! {

/// The prefixes a sprint may set for its own name and for the cards created
/// in it.
pub struct SprintPrefixes {
    pub id: Uuid,
    pub prefix: Option<String>,
    pub card_prefix: Option<String>,
}

/// The first sprint with id `id`, if any.
pub open spec fn first_sprint(sprints: Seq<SprintPrefixes>, id: Uuid, r: Option<int>) -> bool {
    match r {
        Some(i) => 0 <= i < sprints.len() && sprints[i].id == id && forall|k: int|
            0 <= k < i ==> sprints[k].id != id,
        None => forall|k: int| 0 <= k < sprints.len() ==> sprints[k].id != id,
    }
}

/// The override a board's active sprint sets, `pick` choosing which of the
/// sprint's prefixes: none without an active sprint, or when the active
/// sprint is not listed or sets no prefix.
pub open spec fn active_override(
    active_sprint_id: Option<Uuid>,
    sprints: Seq<SprintPrefixes>,
    card: bool,
    r: Option<Seq<char>>,
) -> bool {
    match active_sprint_id {
        None => r is None,
        Some(id) => exists|i: Option<int>| first_sprint(sprints, id, i) && r == (match i {
            Some(k) => {
                let p = if card { sprints[k].card_prefix } else { sprints[k].prefix };
                match p {
                    Some(s) => Some(s@),
                    None => None,
                }
            },
            None => None,
        }),
    }
}

fn find_sprint(sprints: &Vec<SprintPrefixes>, id: Uuid) -> (r: Option<usize>)
    ensures
        first_sprint(
            sprints@,
            id,
            match r {
                Some(i) => Some(i as int),
                None => None,
            },
        ),
{
    let mut i: usize = 0;
    while i < sprints.len()
        invariant
            i <= sprints@.len(),
            forall|k: int| 0 <= k < i ==> sprints@[k].id != id,
        decreases sprints@.len() - i,
    {
        if same_id(&sprints[i].id, &id) {
            return Some(i);
        }
        i = i + 1;
    }
    None
}

/// Card prefix set by the board's active sprint, if any.
pub fn get_active_sprint_card_prefix_override<'a>(
    active_sprint_id: Option<Uuid>,
    sprints: &'a Vec<SprintPrefixes>,
) -> (r: Option<&'a str>)
    ensures
        active_override(
            active_sprint_id,
            sprints@,
            true,
            match r {
                Some(s) => Some(s@),
                None => None,
            },
        ),
{
    match active_sprint_id {
        None => None,
        Some(id) => match find_sprint(sprints, id) {
            Some(i) => match &sprints[i].card_prefix {
                Some(s) => Some(s.as_str()),
                None => None,
            },
            None => None,
        },
    }
}

/// Sprint-name prefix set by the board's active sprint, if any.
pub fn get_active_sprint_prefix_override<'a>(
    active_sprint_id: Option<Uuid>,
    sprints: &'a Vec<SprintPrefixes>,
) -> (r: Option<&'a str>)
    ensures
        active_override(
            active_sprint_id,
            sprints@,
            false,
            match r {
                Some(s) => Some(s@),
                None => None,
            },
        ),
{
    match active_sprint_id {
        None => None,
        Some(id) => match find_sprint(sprints, id) {
            Some(i) => match &sprints[i].prefix {
                Some(s) => Some(s.as_str()),
                None => None,
            },
            None => None,
        },
    }
}

} // verus!
