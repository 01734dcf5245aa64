use vstd::prelude::*;

use crate::readiness::{has_bit, POLLIN, POLLOUT};

verus! {

/// Work the worker does on a socket after a poll.
#[derive(Clone, Copy, Debug, PartialEq, Eq)]
pub enum Action {
    /// Send on the socket under this id.
    Snd(usize),
    /// Receive on the socket under this id.
    Rcv(usize),
}

/// The action a poll result calls for on socket `id`, armed for `events`,
/// that reported `revents`: sending is preferred over receiving.
pub open spec fn action_for(id: usize, events: i16, revents: i16) -> Option<Action> {
    if has_bit(events, POLLOUT) && has_bit(revents, POLLOUT) {
        Some(Action::Snd(id))
    } else if has_bit(events, POLLIN) && has_bit(revents, POLLIN) {
        Some(Action::Rcv(id))
    } else {
        None
    }
}

/// The actions picked, in poll order, from the armed sockets `items` and
/// their results `revents`, having counted `count` of the `num` signalled
/// items so far: the scan stops once every signalled item is counted.
pub open spec fn picked(
    items: Seq<(usize, i16)>,
    revents: Seq<i16>,
    count: int,
    num: int,
) -> Seq<Action>
    decreases items.len(),
{
    if items.len() == 0 || revents.len() == 0 {
        Seq::empty()
    } else {
        let a = action_for(items[0].0, items[0].1, revents[0]);
        let head = if a is Some {
            seq![a->Some_0]
        } else {
            Seq::empty()
        };
        let c = if a is Some {
            count + 1
        } else {
            count
        };
        if c >= num {
            head
        } else {
            head + picked(items.drop_first(), revents.drop_first(), c, num)
        }
    }
}

/// How many of the signalled items the self-pipe accounts for.
pub open spec fn pipe_count(num_signalled: usize, pipe_readable: bool) -> int {
    if num_signalled > 0 && pipe_readable {
        1
    } else {
        0
    }
}

/// Plans the work after a poll. `items` are the armed sockets and their
/// event masks, in the order they were polled; `revents` what the poll
/// reported for each; `num_signalled` how many items it signalled, the
/// self-pipe included. A writable socket armed for writing gets a send, else
/// a readable one armed for reading a receive. The plan is to be carried out
/// in the order returned: the last socket picked comes first.
pub fn schedule(
    items: &Vec<(usize, i16)>,
    revents: &Vec<i16>,
    num_signalled: usize,
    pipe_readable: bool,
) -> (r: Vec<Action>)
    ensures
        ({
            let p = picked(items@, revents@, pipe_count(num_signalled, pipe_readable), num_signalled as int);
            &&& r@.len() == p.len()
            &&& forall|i: int| 0 <= i < p.len() ==> r@[i] == p[p.len() - 1 - i]
        }),
{
    let ghost total = picked(items@, revents@, pipe_count(num_signalled, pipe_readable), num_signalled as int);
    let mut count: usize = if num_signalled > 0 && pipe_readable {
        1
    } else {
        0
    };
    let mut acc: Vec<Action> = Vec::new();
    let mut i: usize = 0;
    let n = if items.len() < revents.len() {
        items.len()
    } else {
        revents.len()
    };
    let mut done = false;
    proof {
        assert(items@.skip(0) =~= items@);
        assert(revents@.skip(0) =~= revents@);
        assert(acc@ + total =~= total);
    }
    while i < n && !done
        invariant
            n <= items@.len(),
            n <= revents@.len(),
            n == items@.len() || n == revents@.len(),
            i <= n,
            count <= 1 || count <= num_signalled,
            acc@.len() <= i,
            done ==> acc@ == total,
            !done ==> acc@ + picked(items@.skip(i as int), revents@.skip(i as int), count as int, num_signalled as int)
                == total,
        decreases n - i,
    {
        let (id, events) = items[i];
        let rev = revents[i];
        let ghost rest_items = items@.skip(i as int);
        let ghost rest_rev = revents@.skip(i as int);
        proof {
            assert(rest_items[0] == items@[i as int]);
            assert(rest_rev[0] == revents@[i as int]);
            assert(rest_items.drop_first() =~= items@.skip(i + 1));
            assert(rest_rev.drop_first() =~= revents@.skip(i + 1));
        }
        let ghost acc0 = acc@;
        let pick: Option<Action> = if events & POLLOUT == POLLOUT && rev & POLLOUT == POLLOUT {
            Some(Action::Snd(id))
        } else if events & POLLIN == POLLIN && rev & POLLIN == POLLIN {
            Some(Action::Rcv(id))
        } else {
            None
        };
        assert(pick == action_for(id, events, rev));
        match pick {
            Some(a) => {
                acc.push(a);
                if count < num_signalled {
                    count = count + 1;
                }
            },
            None => {
            },
        }
        proof {
            if pick is Some {
                assert(acc@ =~= acc0 + seq![pick->Some_0]);
            } else {
                assert(acc@ =~= acc0 + Seq::<Action>::empty());
            }
        }
        if count >= num_signalled {
            done = true;
        }
        i = i + 1;
        proof {
            if done {
                assert(acc@ =~= total);
            } else {
                assert(acc@ + picked(items@.skip(i as int), revents@.skip(i as int), count as int, num_signalled as int)
                    =~= total);
            }
        }
    }
    proof {
        if !done {
            assert(items@.skip(i as int).len() == 0 || revents@.skip(i as int).len() == 0);
            assert(acc@ =~= total);
        }
    }
    let mut r: Vec<Action> = Vec::new();
    let mut k: usize = acc.len();
    while k > 0
        invariant
            k <= acc@.len(),
            acc@ == total,
            r@.len() == acc@.len() - k,
            forall|j: int| 0 <= j < r@.len() ==> r@[j] == acc@[acc@.len() - 1 - j],
        decreases k,
    {
        k = k - 1;
        r.push(acc[k]);
    }
    r
}

} // verus!
