//! Choice of the monitor to capture.

use crate::text;
use vstd::prelude::*;
use vstd::string::*;

verus! {

/// A monitor as the system describes it.
#[derive(Debug, PartialEq, Eq)]
pub struct Monitor {
    pub id: u32,
    pub name: String,
    pub width: u32,
    pub height: u32,
    pub is_primary: bool,
}

/// The number of the first primary monitor from `from` on, or the length of the
/// list if there is none.
pub open spec fn first_primary(monitors: Seq<Monitor>, from: nat) -> nat
    decreases monitors.len() - from,
{
    if from >= monitors.len() {
        monitors.len()
    } else if monitors[from as int].is_primary {
        from
    } else {
        first_primary(monitors, from + 1)
    }
}

/// The first primary monitor is one that is marked as primary, and none before
/// it is.
pub proof fn law_first_primary_is_the_first(monitors: Seq<Monitor>, from: nat)
    requires
        from <= monitors.len(),
    ensures
        ({
            let n = first_primary(monitors, from);
            &&& from <= n <= monitors.len()
            &&& n < monitors.len() ==> monitors[n as int].is_primary
            &&& forall|j: int| from <= j < n ==> !(#[trigger] monitors[j]).is_primary
        }),
    decreases monitors.len() - from,
{
    if from < monitors.len() && !monitors[from as int].is_primary {
        law_first_primary_is_the_first(monitors, from + 1);
    }
}

/// The number of the first primary monitor, or the length of the list.
fn find_primary(monitors: &Vec<Monitor>) -> (n: usize)
    ensures
        n == first_primary(monitors@, 0),
        n <= monitors@.len(),
        n < monitors@.len() ==> monitors@[n as int].is_primary,
        forall|j: int| 0 <= j < n ==> !(#[trigger] monitors@[j]).is_primary,
{
    let mut i: usize = 0;
    while i < monitors.len()
        invariant
            i <= monitors@.len(),
            first_primary(monitors@, 0) == first_primary(monitors@, i as nat),
            forall|j: int| 0 <= j < i ==> !(#[trigger] monitors@[j]).is_primary,
        decreases monitors@.len() - i,
    {
        if monitors[i].is_primary {
            return i;
        }
        i = i + 1;
    }
    i
}

/// The number of the monitor to capture: the primary one, or the first one if
/// none is marked as primary. `monitors` is what the system listed, or why it
/// could not.
pub fn capture_primary(monitors: &Result<Vec<Monitor>, String>) -> (res: Result<usize, String>)
    ensures
        match (monitors, res) {
            (Ok(list), Ok(n)) => {
                &&& list@.len() > 0
                &&& n == if first_primary(list@, 0) < list@.len() {
                    first_primary(list@, 0)
                } else {
                    0
                }
            },
            (Ok(list), Err(error)) => list@.len() == 0 && error@ == "no monitors found"@,
            (Err(reason), Ok(_)) => false,
            (Err(reason), Err(error)) => error == reason,
        },
        (monitors, res) matches (Ok(list), Ok(n)) ==> {
            &&& n < list@.len()
            &&& list@[n as int].is_primary ==> forall|j: int|
                0 <= j < n ==> !(#[trigger] list@[j]).is_primary
            &&& !list@[n as int].is_primary ==> n == 0 && forall|j: int|
                0 <= j < list@.len() ==> !(#[trigger] list@[j]).is_primary
        },
{
    match monitors {
        Ok(list) => {
            if list.len() == 0 {
                return Err("no monitors found".to_owned());
            }
            let n = find_primary(list);
            if n < list.len() {
                Ok(n)
            } else {
                Ok(0)
            }
        },
        Err(reason) => Err(reason.clone()),
    }
}

/// The number of the monitor to capture when it is asked for by number.
pub fn capture_monitor(monitors: &Result<Vec<Monitor>, String>, index: usize) -> (res: Result<
    usize,
    String,
>)
    ensures
        match (monitors, res) {
            (Ok(list), Ok(n)) => index < list@.len() && n == index,
            (Ok(list), Err(error)) => index >= list@.len() && error@ == "monitor index "@
                + text::decimal(index as nat) + " out of range"@,
            (Err(reason), Ok(_)) => false,
            (Err(reason), Err(error)) => error == reason,
        },
{
    match monitors {
        Ok(list) => {
            if index < list.len() {
                Ok(index)
            } else {
                Err(
                    "monitor index ".to_owned().concat(
                        text::to_decimal(index as u64).as_str(),
                    ).concat(" out of range"),
                )
            }
        },
        Err(reason) => Err(reason.clone()),
    }
}

/// Lists the names of the available monitors.
pub fn list_monitors(monitors: &Result<Vec<Monitor>, String>) -> (res: Result<Vec<String>, String>)
    ensures
        match (monitors, res) {
            (Ok(list), Ok(names)) => names@ == list@.map_values(|m: Monitor| m.name)
                && names@.len() == list@.len() && forall|i: int|
                0 <= i < list@.len() ==> #[trigger] names@[i] == list@[i].name,
            (Err(reason), Err(error)) => error == reason,
            _ => false,
        },
{
    match monitors {
        Ok(list) => {
            let mut names: Vec<String> = Vec::new();
            let mut i: usize = 0;
            while i < list.len()
                invariant
                    i <= list@.len(),
                    names@.len() == i,
                    forall|j: int| 0 <= j < i ==> #[trigger] names@[j] == list@[j].name,
                decreases list@.len() - i,
            {
                names.push(list[i].name.clone());
                i = i + 1;
            }
            assert(names@ =~= list@.map_values(|m: Monitor| m.name));
            Ok(names)
        },
        Err(reason) => Err(reason.clone()),
    }
}

/// The size of the primary screen; 1920 by 1080 if it cannot be told.
pub fn get_primary_screen_size(monitors: &Result<Vec<Monitor>, String>) -> (size: (u32, u32))
    ensures
        size == match monitors {
            Ok(list) if first_primary(list@, 0) < list@.len() => (
                list@[first_primary(list@, 0) as int].width,
                list@[first_primary(list@, 0) as int].height,
            ),
            _ => (1920u32, 1080u32),
        },
        monitors matches Ok(list) ==> forall|n: int|
            0 <= n < list@.len() && (#[trigger] list@[n]).is_primary && (forall|j: int|
                0 <= j < n ==> !(#[trigger] list@[j]).is_primary) ==> size == (
                list@[n].width,
                list@[n].height,
            ),
        monitors matches Ok(list) ==> (forall|j: int|
            0 <= j < list@.len() ==> !(#[trigger] list@[j]).is_primary) ==> size == (
            1920u32,
            1080u32,
        ),
        monitors is Err ==> size == (1920u32, 1080u32),
{
    if let Ok(list) = monitors {
        let n = find_primary(list);
        if n < list.len() {
            return (list[n].width, list[n].height);
        }
    }
    (1920, 1080)
}

} // verus!
