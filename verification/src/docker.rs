//! Which containers run, by the names that the container engine lists.

use vstd::prelude::*;
use crate::text::{str_eq, trim_start_char, without_leading};

verus! {

/// The name of a container as its owner wrote it: the engine lists names
/// with a slash in front.
pub open spec fn plain_name(listed: Seq<char>) -> Seq<char> {
    without_leading(listed, '/')
}

/// Whether one of the names `names` is `container_name`.
pub open spec fn names_container(names: Seq<String>, container_name: Seq<char>) -> bool {
    exists|j: int| 0 <= j < names.len() && plain_name(#[trigger] names[j]@) == container_name
}

/// Whether the container with the names `names`, if names were listed for
/// it, is `container_name`.
pub open spec fn answers_to(names: Option<Vec<String>>, container_name: Seq<char>) -> bool {
    match names {
        Some(list) => names_container(list@, container_name),
        None => false,
    }
}

fn names_include(names: &Vec<String>, container_name: &str) -> (r: bool)
    ensures
        r == names_container(names@, container_name@),
{
    let mut j: usize = 0;
    while j < names.len()
        invariant
            j <= names.len(),
            forall|k: int| 0 <= k < j ==> plain_name(#[trigger] names@[k]@) != container_name@,
        decreases names.len() - j,
    {
        let plain = trim_start_char(names[j].as_str(), '/');
        if str_eq(plain.as_str(), container_name) {
            return true;
        }
        j += 1;
    }
    false
}

/// Check if a container is running, given the names of the containers that
/// run, container by container.
pub fn is_container_running(running: &Vec<Option<Vec<String>>>, container_name: &str) -> (r: bool)
    ensures
        r == exists|i: int|
            0 <= i < running@.len() && answers_to(#[trigger] running@[i], container_name@),
{
    let mut i: usize = 0;
    while i < running.len()
        invariant
            i <= running.len(),
            forall|k: int| 0 <= k < i ==> !answers_to(#[trigger] running@[k], container_name@),
        decreases running.len() - i,
    {
        match &running[i] {
            Some(names) => {
                if names_include(names, container_name) {
                    assert(answers_to(running@[i as int], container_name@));
                    return true;
                }
            },
            None => {},
        }
        i += 1;
    }
    false
}

/// The plain names of `names`, in order.
pub open spec fn plain_names(names: Seq<String>) -> Seq<Seq<char>> {
    Seq::new(names.len(), |j: int| plain_name(names[j]@))
}

/// The plain names of all containers, container by container.
pub open spec fn all_plain_names(running: Seq<Option<Vec<String>>>) -> Seq<Seq<char>>
    decreases running.len(),
{
    if running.len() == 0 {
        Seq::empty()
    } else {
        all_plain_names(running.drop_last()) + match running.last() {
            Some(names) => plain_names(names@),
            None => Seq::empty(),
        }
    }
}

/// Get the current list of running containers, by their plain names.
pub fn list_containers(running: &Vec<Option<Vec<String>>>) -> (names: Vec<String>)
    ensures
        crate::collections::texts(names@) == all_plain_names(running@),
{
    let mut out: Vec<String> = Vec::new();
    let mut i: usize = 0;
    assert(running@.take(0) =~= Seq::<Option<Vec<String>>>::empty());
    assert(crate::collections::texts(out@) =~= all_plain_names(running@.take(0)));
    while i < running.len()
        invariant
            i <= running.len(),
            crate::collections::texts(out@) == all_plain_names(running@.take(i as int)),
        decreases running.len() - i,
    {
        let ghost before = crate::collections::texts(out@);
        proof {
            let next = running@.take(i as int + 1);
            assert(next.drop_last() =~= running@.take(i as int));
            assert(next.last() == running@[i as int]);
        }
        match &running[i] {
            Some(list) => {
                let mut j: usize = 0;
                while j < list.len()
                    invariant
                        j <= list.len(),
                        crate::collections::texts(out@) == before + plain_names(list@).take(
                            j as int,
                        ),
                    decreases list.len() - j,
                {
                    let ghost so_far = crate::collections::texts(out@);
                    out.push(trim_start_char(list[j].as_str(), '/'));
                    assert(crate::collections::texts(out@) =~= so_far.push(
                        plain_name(list@[j as int]@),
                    ));
                    assert(plain_names(list@).take(j as int + 1) =~= plain_names(list@).take(
                        j as int,
                    ).push(plain_name(list@[j as int]@)));
                    j += 1;
                }
                assert(plain_names(list@).take(j as int) =~= plain_names(list@));
            },
            None => {
                assert(before + Seq::<Seq<char>>::empty() =~= before);
            },
        }
        i += 1;
    }
    assert(running@.take(i as int) =~= running@);
    out
}

} // verus!
