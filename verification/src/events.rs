//! Visitor events for the lateral-join experiment: a visit, possibly
//! followed by a registration, possibly followed by a payment.
//!
//! A visitor id is the 128-bit value of its UUID; an event time is an
//! `Instant`.

use vstd::prelude::*;
use crate::time::{draw_between, drawable, drawn_between, not_after, Instant, TimeWindow};

verus! {

/// Someone visited the site.
#[derive(Clone, Copy, Debug, PartialEq, Eq, Structural)]
pub struct VisitedEvent {
    pub visitor_id: u128,
    pub event_time: Instant,
}

/// A visitor registered as a user.
#[derive(Clone, Copy, Debug, PartialEq, Eq, Structural)]
pub struct RegisteredEvent {
    pub visitor_id: u128,
    pub event_time: Instant,
    pub user_id: u32,
}

/// A registered user bought a plan.
#[derive(Clone, Copy, Debug, PartialEq, Eq, Structural)]
pub struct PaidUserEvent {
    pub visitor_id: u128,
    pub event_time: Instant,
    pub user_id: u32,
    pub plan_id: u32,
}

/// The plan that paying visitors buy.
pub const PAID_PLAN_ID: u32 = 2;

/// One stored event, of any of the three kinds.
#[derive(Clone, Copy, Debug, PartialEq, Eq, Structural)]
pub enum FunnelEvent {
    Visited(VisitedEvent),
    Registered(RegisteredEvent),
    Paid(PaidUserEvent),
}

impl FunnelEvent {
    pub open spec fn visitor_of(self) -> u128 {
        match self {
            FunnelEvent::Visited(e) => e.visitor_id,
            FunnelEvent::Registered(e) => e.visitor_id,
            FunnelEvent::Paid(e) => e.visitor_id,
        }
    }

    pub open spec fn time_of(self) -> Instant {
        match self {
            FunnelEvent::Visited(e) => e.event_time,
            FunnelEvent::Registered(e) => e.event_time,
            FunnelEvent::Paid(e) => e.event_time,
        }
    }

    /// The `type` tag stored in the event's JSON data: the name of its kind.
    pub open spec fn kind_tag_of(self) -> Seq<char> {
        match self {
            FunnelEvent::Visited(_) => "VisitedEvent"@,
            FunnelEvent::Registered(_) => "RegisteredEvent"@,
            FunnelEvent::Paid(_) => "PaidUserEvent"@,
        }
    }

    /// The visitor the event belongs to; stored in the `visitor_id` column.
    pub fn visitor_id(&self) -> (id: u128)
        ensures
            id == self.visitor_of(),
    {
        match self {
            FunnelEvent::Visited(e) => e.visitor_id,
            FunnelEvent::Registered(e) => e.visitor_id,
            FunnelEvent::Paid(e) => e.visitor_id,
        }
    }

    /// When the event happened; stored in the `created_at` column.
    pub fn event_time(&self) -> (t: Instant)
        ensures
            t == self.time_of(),
    {
        match self {
            FunnelEvent::Visited(e) => e.event_time,
            FunnelEvent::Registered(e) => e.event_time,
            FunnelEvent::Paid(e) => e.event_time,
        }
    }

    /// The `type` tag of the event's JSON data.
    pub fn kind_tag(&self) -> (name: String)
        ensures
            name@ == self.kind_tag_of(),
    {
        match self {
            FunnelEvent::Visited(_) => String::from_str("VisitedEvent"),
            FunnelEvent::Registered(_) => String::from_str("RegisteredEvent"),
            FunnelEvent::Paid(_) => String::from_str("PaidUserEvent"),
        }
    }
}

/// Each event's tag is the name of its own kind, so the three kinds are
/// told apart in the stored documents; its visitor and time are its own
/// fields.
pub proof fn law_event_tag_names_its_kind(event: FunnelEvent)
    ensures
        match event {
            FunnelEvent::Visited(e) => event.kind_tag_of() == "VisitedEvent"@ && event.visitor_of()
                == e.visitor_id && event.time_of() == e.event_time,
            FunnelEvent::Registered(e) => event.kind_tag_of() == "RegisteredEvent"@
                && event.visitor_of() == e.visitor_id && event.time_of() == e.event_time,
            FunnelEvent::Paid(e) => event.kind_tag_of() == "PaidUserEvent"@ && event.visitor_of()
                == e.visitor_id && event.time_of() == e.event_time,
        },
        "VisitedEvent"@ != "RegisteredEvent"@,
        "VisitedEvent"@ != "PaidUserEvent"@,
        "RegisteredEvent"@ != "PaidUserEvent"@,
{
    reveal_strlit("VisitedEvent");
    reveal_strlit("RegisteredEvent");
    reveal_strlit("PaidUserEvent");
    assert("VisitedEvent"@[0] != "RegisteredEvent"@[0]);
    assert("VisitedEvent"@[0] != "PaidUserEvent"@[0]);
    assert("RegisteredEvent"@[0] != "PaidUserEvent"@[0]);
}

/// The events one visitor leaves: always a visit; a registration if the
/// visitor registers; and, for a registered visitor who pays, a payment for
/// the same user on plan `PAID_PLAN_ID`.
pub open spec fn funnel_spec(
    visitor_id: u128,
    visited_at: Instant,
    registers: bool,
    pays: bool,
    user_id: u32,
    registered_at: Instant,
    paid_at: Instant,
) -> Seq<FunnelEvent> {
    let visit = FunnelEvent::Visited(VisitedEvent { visitor_id, event_time: visited_at });
    let registration = FunnelEvent::Registered(
        RegisteredEvent { visitor_id, event_time: registered_at, user_id },
    );
    let payment = FunnelEvent::Paid(
        PaidUserEvent { visitor_id, event_time: paid_at, user_id, plan_id: PAID_PLAN_ID },
    );
    if !registers {
        seq![visit]
    } else if !pays {
        seq![visit, registration]
    } else {
        seq![visit, registration, payment]
    }
}

/// The events of one visitor, in the order they are stored.
pub fn visitor_funnel(
    visitor_id: u128,
    visited_at: Instant,
    registers: bool,
    pays: bool,
    user_id: u32,
    registered_at: Instant,
    paid_at: Instant,
) -> (events: Vec<FunnelEvent>)
    ensures
        events@ == funnel_spec(
            visitor_id,
            visited_at,
            registers,
            pays,
            user_id,
            registered_at,
            paid_at,
        ),
{
    let mut events: Vec<FunnelEvent> = Vec::new();
    events.push(FunnelEvent::Visited(VisitedEvent { visitor_id, event_time: visited_at }));
    if registers {
        events.push(
            FunnelEvent::Registered(RegisteredEvent { visitor_id, event_time: registered_at, user_id }),
        );
        if pays {
            events.push(
                FunnelEvent::Paid(
                    PaidUserEvent { visitor_id, event_time: paid_at, user_id, plan_id: PAID_PLAN_ID },
                ),
            );
        }
    }
    assert(events@ =~= funnel_spec(
        visitor_id,
        visited_at,
        registers,
        pays,
        user_id,
        registered_at,
        paid_at,
    ));
    events
}

/// Every funnel begins with the visit, and all its events belong to the one
/// visitor.
pub proof fn law_funnel_begins_with_the_visit(
    visitor_id: u128,
    visited_at: Instant,
    registers: bool,
    pays: bool,
    user_id: u32,
    registered_at: Instant,
    paid_at: Instant,
)
    ensures
        ({
            let f = funnel_spec(visitor_id, visited_at, registers, pays, user_id, registered_at, paid_at);
            &&& 1 <= f.len() <= 3
            &&& f[0] == FunnelEvent::Visited(VisitedEvent { visitor_id, event_time: visited_at })
            &&& forall|i: int| 0 <= i < f.len() ==> (#[trigger] f[i]).visitor_of() == visitor_id
        }),
{
}

/// A payment is only ever stored right after a registration of the same
/// user, and a visitor who does not register leaves a visit and nothing else.
pub proof fn law_payment_follows_registration(
    visitor_id: u128,
    visited_at: Instant,
    registers: bool,
    pays: bool,
    user_id: u32,
    registered_at: Instant,
    paid_at: Instant,
)
    ensures
        ({
            let f = funnel_spec(visitor_id, visited_at, registers, pays, user_id, registered_at, paid_at);
            &&& forall|i: int|
                #![trigger f[i]]
                0 <= i < f.len() && f[i] is Paid ==> i >= 1 && f[i - 1] is Registered
                    && f[i - 1]->Registered_0.user_id == f[i]->Paid_0.user_id
                    && f[i]->Paid_0.plan_id == PAID_PLAN_ID
            &&& !registers ==> f.len() == 1
            &&& (exists|i: int| 0 <= i < f.len() && #[trigger] f[i] is Paid) <==> (registers && pays)
        }),
{
    let f = funnel_spec(visitor_id, visited_at, registers, pays, user_id, registered_at, paid_at);
    if registers && pays {
        assert(f[2] is Paid);
    }
}

/// A funnel carries the values it was given: the visit its time, the
/// registration the given user and its time, the payment the same user, plan
/// `PAID_PLAN_ID` and its time.
pub proof fn law_funnel_carries_its_values(
    visitor_id: u128,
    visited_at: Instant,
    registers: bool,
    pays: bool,
    user_id: u32,
    registered_at: Instant,
    paid_at: Instant,
)
    ensures
        ({
            let f = funnel_spec(visitor_id, visited_at, registers, pays, user_id, registered_at, paid_at);
            &&& f.len() == if !registers { 1int } else if !pays { 2int } else { 3int }
            &&& f[0] == FunnelEvent::Visited(VisitedEvent { visitor_id, event_time: visited_at })
            &&& registers ==> f[1] == FunnelEvent::Registered(
                RegisteredEvent { visitor_id, event_time: registered_at, user_id },
            )
            &&& registers && pays ==> f[2] == FunnelEvent::Paid(
                PaidUserEvent { visitor_id, event_time: paid_at, user_id, plan_id: 2 },
            )
        }),
{
}

/// When the registration time is not before the visit and the payment time
/// not before the registration, as the seeding draws them, the stored events
/// are in chronological order.
pub proof fn law_funnel_is_chronological(
    visitor_id: u128,
    visited_at: Instant,
    registers: bool,
    pays: bool,
    user_id: u32,
    registered_at: Instant,
    paid_at: Instant,
)
    requires
        not_after(visited_at, registered_at),
        not_after(registered_at, paid_at),
    ensures
        ({
            let f = funnel_spec(visitor_id, visited_at, registers, pays, user_id, registered_at, paid_at);
            forall|i: int, j: int| 0 <= i <= j < f.len() ==> not_after(#[trigger] f[i].time_of(), #[trigger] f[j].time_of())
        }),
{
}

/// Draws the events of one seeded visitor: the visit at a random time of
/// the window; for a visitor who registers, the registration at a random
/// time from the visit to the window's end; for one who also pays, the
/// payment at a random time from the registration to the window's end.
/// Times of steps the visitor does not reach are not drawn. The events are
/// those of `funnel_spec` for the drawn times, so they are in chronological
/// order and lie in the window.
pub fn seed_visitor(
    visitor_id: u128,
    window: TimeWindow,
    registers: bool,
    pays: bool,
    user_id: u32,
) -> (events: Vec<FunnelEvent>)
    requires
        drawable(window.start, window.end),
    ensures
        exists|visited_at: Instant, registered_at: Instant, paid_at: Instant|
            {
                &&& events@ == funnel_spec(
                    visitor_id,
                    visited_at,
                    registers,
                    pays,
                    user_id,
                    registered_at,
                    paid_at,
                )
                &&& drawn_between(window.start, window.end, visited_at)
                &&& registers ==> drawn_between(visited_at, window.end, registered_at)
                &&& registers && pays ==> drawn_between(registered_at, window.end, paid_at)
            },
        forall|i: int, j: int|
            0 <= i <= j < events@.len() ==> not_after(
                #[trigger] events@[i].time_of(),
                #[trigger] events@[j].time_of(),
            ),
        forall|i: int|
            0 <= i < events@.len() ==> not_after(window.start, #[trigger] events@[i].time_of())
                && not_after(events@[i].time_of(), window.end) && events@[i].time_of() != window.end,
{
    let visited_at = draw_between(window.start, window.end);
    let mut registered_at = visited_at;
    let mut paid_at = visited_at;
    if registers {
        registered_at = draw_between(visited_at, window.end);
        paid_at = registered_at;
        if pays {
            paid_at = draw_between(registered_at, window.end);
        }
    }
    let events = visitor_funnel(
        visitor_id,
        visited_at,
        registers,
        pays,
        user_id,
        registered_at,
        paid_at,
    );
    proof {
        law_funnel_is_chronological(
            visitor_id,
            visited_at,
            registers,
            pays,
            user_id,
            registered_at,
            paid_at,
        );
    }
    events
}

} // verus!
