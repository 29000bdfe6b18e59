use vstd::prelude::*;
use crate::error::{AppError, ErrorView, classified, text_eq};
use crate::finger::{Finger, finger_id};

verus! {

/// The characters of each string.
pub open spec fn views(v: Seq<String>) -> Seq<Seq<char>> {
    v.map_values(|s: String| s@)
}

/// `s` without the entries equal to `x`, in order.
pub open spec fn without(s: Seq<Seq<char>>, x: Seq<char>) -> Seq<Seq<char>>
    decreases s.len(),
{
    if s.len() == 0 {
        s
    } else {
        let rest = without(s.drop_last(), x);
        if s.last() == x {
            rest
        } else {
            rest.push(s.last())
        }
    }
}

/// The D-Bus error name with which the service reports that a user has no
/// prints to delete.
pub open spec fn is_absent_name(n: Seq<char>) -> bool {
    n == "net.reactivated.Fprint.Error.NoEnrolledPrints"@
}

/// The outcome of a deletion that the service answered with a failure:
/// prints that are already absent count as deleted.
pub open spec fn deletion_outcome(name: Option<Seq<char>>, text: Seq<char>) -> Option<ErrorView> {
    match name {
        Some(n) => if is_absent_name(n) {
            None
        } else {
            Some(classified(name, text))
        },
        None => Some(classified(name, text)),
    }
}

/// The device to work with: the first one the service lists.
pub fn select_device(paths: &Vec<String>) -> (r: Result<String, AppError>)
    ensures
        paths@.len() == 0 ==> r == Err::<String, AppError>(AppError::DeviceNotFound),
        paths@.len() > 0 ==> r == Ok::<String, AppError>(paths@[0]),
{
    if paths.len() == 0 {
        Err(AppError::DeviceNotFound)
    } else {
        Ok(paths[0].clone())
    }
}

/// The reply to a deletion that the service answered with a failure, given
/// by its D-Bus error name, if it was an error reply, and its text.
pub fn deletion_reply(name: Option<&str>, text: &str) -> (r: Result<Vec<String>, AppError>)
    ensures
        ({
            let nv = match name {
                Some(n) => Some(n@),
                None => None,
            };
            match deletion_outcome(nv, text@) {
                None => r matches Ok(v) && v@.len() == 0,
                Some(ev) => r matches Err(e) && e@ == ev,
            }
        }),
{
    match name {
        Some(n) => {
            if text_eq(n, "net.reactivated.Fprint.Error.NoEnrolledPrints") {
                Ok(Vec::new())
            } else {
                Err(AppError::classify(Some(n), text))
            }
        },
        None => Err(AppError::classify(None, text)),
    }
}

/// Deleting prints that are already absent succeeds, as a deletion that
/// removed them would.
pub proof fn lemma_absent_delete_succeeds(text: Seq<char>)
    ensures
        deletion_outcome(Some("net.reactivated.Fprint.Error.NoEnrolledPrints"@), text) is None,
{
}

/// The enrolled finger slots once the page's prints were deleted: one slot
/// goes, or all of them for the page that clears every print.
pub fn after_delete(enrolled: Vec<String>, page: Finger) -> (r: Vec<String>)
    ensures
        finger_id(page) is None ==> r@.len() == 0,
        finger_id(page) matches Some(id) ==> views(r@) == without(views(enrolled@), id),
{
    match page.as_finger_id() {
        None => Vec::new(),
        Some(id) => {
            let mut r: Vec<String> = Vec::new();
            let mut i: usize = 0;
            while i < enrolled.len()
                invariant
                    i <= enrolled@.len(),
                    views(r@) == without(views(enrolled@.subrange(0, i as int)), id@),
                    finger_id(page) == Some(id@),
                decreases enrolled@.len() - i,
            {
                proof {
                    let next = enrolled@.subrange(0, i as int + 1);
                    assert(next.drop_last() =~= enrolled@.subrange(0, i as int));
                    assert(views(next).drop_last() =~= views(next.drop_last()));
                }
                if !text_eq(enrolled[i].as_str(), id) {
                    r.push(enrolled[i].clone());
                    assert(views(r@) =~= views(r@.drop_last()).push(r@.last()@));
                }
                i += 1;
            }
            assert(enrolled@.subrange(0, enrolled@.len() as int) =~= enrolled@);
            r
        },
    }
}

/// Whether the page has prints: its slot is enrolled, or, for the page that
/// clears every print, any slot is.
pub fn is_enrolled(enrolled: &Vec<String>, page: Finger) -> (r: bool)
    ensures
        finger_id(page) is None ==> r == (enrolled@.len() > 0),
        finger_id(page) matches Some(id) ==> r == views(enrolled@).contains(id),
{
    match page.as_finger_id() {
        None => enrolled.len() > 0,
        Some(id) => {
            let mut i: usize = 0;
            while i < enrolled.len()
                invariant
                    i <= enrolled@.len(),
                    forall|j: int| 0 <= j < i ==> enrolled@[j]@ != id@,
                    finger_id(page) == Some(id@),
                decreases enrolled@.len() - i,
            {
                if text_eq(enrolled[i].as_str(), id) {
                    assert(views(enrolled@)[i as int] == id@);
                    assert(views(enrolled@).contains(id@));
                    return true;
                }
                i += 1;
            }
            assert(!views(enrolled@).contains(id@));
            false
        },
    }
}

/// Which of the listed users is selected once the list arrives: the one
/// selected before, if listed, else the first one, if any.
pub fn pick_user(users: &Vec<String>, selected: Option<&str>) -> (r: Option<usize>)
    ensures
        r matches Some(i) ==> i < users@.len(),
        users@.len() == 0 ==> r is None,
        (selected matches Some(s) && views(users@).contains(s@)) ==> (r matches Some(i)
            && users@[i as int]@ == selected->Some_0@ && forall|j: int|
            0 <= j < i ==> users@[j]@ != selected->Some_0@),
        (!(selected matches Some(s) && views(users@).contains(s@)) && users@.len() > 0) ==> r
            == Some(0usize),
{
    if let Some(s) = selected {
        let mut i: usize = 0;
        while i < users.len()
            invariant
                i <= users@.len(),
                forall|j: int| 0 <= j < i ==> users@[j]@ != s@,
                selected == Some(s),
            decreases users@.len() - i,
        {
            if text_eq(users[i].as_str(), s) {
                assert(views(users@)[i as int] == s@);
                assert(views(users@).contains(s@));
                return Some(i);
            }
            i += 1;
        }
        assert(!views(users@).contains(s@));
    }
    if users.len() > 0 {
        Some(0)
    } else {
        None
    }
}

} // verus!
