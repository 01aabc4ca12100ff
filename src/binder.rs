//! Binding of the three advertised capabilities, in whatever order they come.
use vstd::prelude::*;

verus! {

/// The version at which each capability is bound.
pub const BIND_VERSION: u32 = 4;

/// The capabilities that the client binds.
#[derive(Clone, Copy, Debug, PartialEq, Eq, Structural)]
pub enum Capability {
    StatusManager,
    Seat,
    Output,
}

/// A request that the binder asks the transport to make.
#[derive(Clone, Copy, Debug, PartialEq, Eq, Structural)]
pub enum Request {
    /// Bind the advertised global `name` as `capability`, at `version`.
    Bind { name: u32, capability: Capability, version: u32 },
    /// Ask the status manager for a status object of the bound seat.
    CreateSeatStatus,
    /// Ask the status manager for a status object of the bound output.
    CreateOutputStatus,
}

/// The capabilities bound so far, each by the global name it was advertised
/// under. A capability is bound once and then kept.
#[derive(Clone, Copy, Debug, PartialEq, Eq, Structural)]
pub struct Bindings {
    pub status_manager: Option<u32>,
    pub seat: Option<u32>,
    pub output: Option<u32>,
}

/// The capability that an advertised interface name stands for, if any.
pub open spec fn capability_of(interface: Seq<char>) -> Option<Capability> {
    if interface == "zriver_status_manager_v1"@ {
        Some(Capability::StatusManager)
    } else if interface == "wl_seat"@ {
        Some(Capability::Seat)
    } else if interface == "wl_output"@ {
        Some(Capability::Output)
    } else {
        None
    }
}

/// Whether `c` is bound in `b`.
pub open spec fn is_bound(b: Bindings, c: Capability) -> bool {
    match c {
        Capability::StatusManager => b.status_manager is Some,
        Capability::Seat => b.seat is Some,
        Capability::Output => b.output is Some,
    }
}

/// The bindings after the global `name` is advertised as `c`: bound if it was
/// not bound yet, else left as they were.
pub open spec fn bind_next(b: Bindings, name: u32, c: Capability) -> Bindings {
    if is_bound(b, c) {
        b
    } else {
        match c {
            Capability::StatusManager => Bindings { status_manager: Some(name), ..b },
            Capability::Seat => Bindings { seat: Some(name), ..b },
            Capability::Output => Bindings { output: Some(name), ..b },
        }
    }
}

/// The requests made when the global `name` is advertised as `c` over the
/// bindings `b`: the bind itself, then each status object whose two
/// capabilities are bound with this one.
pub open spec fn requests_for(b: Bindings, name: u32, c: Capability) -> Seq<Request> {
    if is_bound(b, c) {
        Seq::empty()
    } else {
        let bind = seq![Request::Bind { name, capability: c, version: BIND_VERSION }];
        match c {
            Capability::StatusManager => bind + (if b.seat is Some {
                seq![Request::CreateSeatStatus]
            } else {
                Seq::empty()
            }) + (if b.output is Some {
                seq![Request::CreateOutputStatus]
            } else {
                Seq::empty()
            }),
            Capability::Seat => bind + (if b.status_manager is Some {
                seq![Request::CreateSeatStatus]
            } else {
                Seq::empty()
            }),
            Capability::Output => bind + (if b.status_manager is Some {
                seq![Request::CreateOutputStatus]
            } else {
                Seq::empty()
            }),
        }
    }
}

/// The bindings and all requests made after a run of advertisements, each a
/// global name and the capability it stands for, taken in order.
pub open spec fn advertise_all(b: Bindings, ads: Seq<(u32, Capability)>) -> (Bindings, Seq<
    Request,
>)
    decreases ads.len(),
{
    if ads.len() == 0 {
        (b, Seq::empty())
    } else {
        let rest = advertise_all(bind_next(b, ads[0].0, ads[0].1), ads.drop_first());
        (rest.0, requests_for(b, ads[0].0, ads[0].1) + rest.1)
    }
}

/// How many times `req` occurs in `rs`.
pub open spec fn count_of(rs: Seq<Request>, req: Request) -> nat
    decreases rs.len(),
{
    if rs.len() == 0 {
        0
    } else {
        (if rs[0] == req {
            1nat
        } else {
            0nat
        }) + count_of(rs.drop_first(), req)
    }
}

impl Bindings {
    /// No capability bound.
    pub fn new() -> (r: Bindings)
        ensures
            r == (Bindings { status_manager: None, seat: None, output: None }),
    {
        Bindings { status_manager: None, seat: None, output: None }
    }

    /// Handles the advertisement of the global `name` with the given interface
    /// name, and returns the requests to make for it, in order.
    pub fn advertise(&mut self, name: u32, interface: &String) -> (r: Vec<Request>)
        ensures
            match capability_of(interface@) {
                Some(c) => *final(self) == bind_next(*old(self), name, c) && r@ == requests_for(
                    *old(self),
                    name,
                    c,
                ),
                None => *final(self) == *old(self) && r@.len() == 0,
            },
    {
        let mut reqs: Vec<Request> = Vec::new();
        if *interface == "zriver_status_manager_v1".to_owned() {
            if self.status_manager.is_none() {
                reqs.push(
                    Request::Bind {
                        name,
                        capability: Capability::StatusManager,
                        version: BIND_VERSION,
                    },
                );
                if self.seat.is_some() {
                    reqs.push(Request::CreateSeatStatus);
                }
                if self.output.is_some() {
                    reqs.push(Request::CreateOutputStatus);
                }
                self.status_manager = Some(name);
            }
        } else if *interface == "wl_seat".to_owned() {
            if self.seat.is_none() {
                reqs.push(Request::Bind { name, capability: Capability::Seat, version: BIND_VERSION });
                if self.status_manager.is_some() {
                    reqs.push(Request::CreateSeatStatus);
                }
                self.seat = Some(name);
            }
        } else if *interface == "wl_output".to_owned() {
            if self.output.is_none() {
                reqs.push(
                    Request::Bind { name, capability: Capability::Output, version: BIND_VERSION },
                );
                if self.status_manager.is_some() {
                    reqs.push(Request::CreateOutputStatus);
                }
                self.output = Some(name);
            }
        }
        proof {
            match capability_of(interface@) {
                Some(c) => {
                    assert(reqs@ =~= requests_for(*old(self), name, c));
                },
                None => {},
            }
        }
        reqs
    }
}

/// Whatever the order in which the status manager, the seat and the output
/// are advertised, all three end up bound, each under the name it was
/// advertised with, and exactly one seat status and one output status are
/// requested.
pub proof fn lemma_any_order_binds_once(ads: Seq<(u32, Capability)>)
    requires
        ads.len() == 3,
        ads[0].1 != ads[1].1,
        ads[0].1 != ads[2].1,
        ads[1].1 != ads[2].1,
    ensures
        ({
            let (b, rs) = advertise_all(
                Bindings { status_manager: None, seat: None, output: None },
                ads,
            );
            &&& forall|i: int|
                0 <= i < 3 ==> match #[trigger] ads[i].1 {
                    Capability::StatusManager => b.status_manager == Some(ads[i].0),
                    Capability::Seat => b.seat == Some(ads[i].0),
                    Capability::Output => b.output == Some(ads[i].0),
                }
            &&& count_of(rs, Request::CreateSeatStatus) == 1
            &&& count_of(rs, Request::CreateOutputStatus) == 1
        }),
{
    reveal_with_fuel(advertise_all, 4);
    reveal_with_fuel(count_of, 6);
    let b0 = Bindings { status_manager: None, seat: None, output: None };
    let b1 = bind_next(b0, ads[0].0, ads[0].1);
    let b2 = bind_next(b1, ads[1].0, ads[1].1);
    let b3 = bind_next(b2, ads[2].0, ads[2].1);
    let r0 = requests_for(b0, ads[0].0, ads[0].1);
    let r1 = requests_for(b1, ads[1].0, ads[1].1);
    let r2 = requests_for(b2, ads[2].0, ads[2].1);
    assert(ads.drop_first().drop_first().drop_first().len() == 0);
    assert(advertise_all(b0, ads) == (b3, r0 + (r1 + (r2 + Seq::<Request>::empty()))));
    assert(r2 + Seq::<Request>::empty() =~= r2);
    lemma_count_concat(r1, r2, Request::CreateSeatStatus);
    lemma_count_concat(r0, r1 + r2, Request::CreateSeatStatus);
    lemma_count_concat(r1, r2, Request::CreateOutputStatus);
    lemma_count_concat(r0, r1 + r2, Request::CreateOutputStatus);
}

/// Counting over a concatenation adds the counts of its two parts.
proof fn lemma_count_concat(a: Seq<Request>, b: Seq<Request>, req: Request)
    ensures
        count_of(a + b, req) == count_of(a, req) + count_of(b, req),
    decreases a.len(),
{
    if a.len() > 0 {
        assert((a + b).drop_first() =~= a.drop_first() + b);
        lemma_count_concat(a.drop_first(), b, req);
    } else {
        assert(a + b =~= b);
    }
}

} // verus!
