//! The scrape of one device, as a state machine.
//!
//! A scrape begins with a request and the pool, and from then on takes one
//! event at a time. Each step answers with the next action for the caller to
//! perform: open the session, read a register group, render an IEEE-754 number,
//! or reply. The report holds one line per descriptor, in catalog order, and is
//! handed out only when every read has succeeded.

use vstd::prelude::*;
use vstd::string::*;
use crate::catalog::{DescriptorText, MetricDescriptor, ModbusType, catalog_view};
use crate::decode::{Value, decode, decoded};
use tokio_modbus::client::Context;
use crate::pool::{ConnectionPool, RemoteAddress};
use crate::text::{
    connect_failure,
    connect_failure_text,
    decimal_text,
    format_line,
    line_text,
    read_failure,
    read_failure_text,
    render_u16,
    report_text,
};

verus! {

/// Whom to scrape: the remote address, the same address as messages show it,
/// and the label under which the device is reported.
pub struct ScrapeRequest {
    pub address: RemoteAddress,
    pub address_text: String,
    pub device_label: String,
}

/// What the caller is asked to do next.
pub enum Action {
    /// Open a session to the request's address.
    Connect,
    /// Read `count` input registers from `address` on, over the session in `slot`.
    Read { slot: usize, address: u16, count: u16 },
    /// Render the IEEE-754 number with this bit pattern in its shortest form
    /// that reads back as the same number.
    Render { value: Value },
    /// Answer the request: the report on success, the message on failure.
    Reply { success: bool, body: String },
}

/// What the caller reports back.
pub enum Event {
    /// The session was opened: here it is.
    Connected { session: Context },
    /// The session could not be opened.
    ConnectFailed { cause: String },
    /// The registers asked for, in order.
    Words { words: Vec<u16> },
    /// The read failed.
    ReadFailed { cause: String },
    /// The number asked for, rendered.
    Rendered { text: String },
}

/// What a scrape is waiting for.
#[derive(Clone, Copy, Debug, PartialEq, Eq, Structural)]
pub enum Phase {
    Connecting,
    Reading,
    Rendering,
    Finished,
}

/// An action in the abstract: the reply's body as the characters it holds.
pub ghost enum ActionView {
    Connect,
    Read { slot: usize, address: u16, count: u16 },
    Render { value: Value },
    Reply { success: bool, body: Seq<char> },
}

/// An event in the abstract: texts and words as the sequences they hold. The
/// session that comes with a connect is left out, nothing being known of it.
pub ghost enum EventView {
    Connected,
    ConnectFailed { cause: Seq<char> },
    Words { words: Seq<u16> },
    ReadFailed { cause: Seq<char> },
    Rendered { text: Seq<char> },
}

impl View for Action {
    type V = ActionView;

    open spec fn view(&self) -> ActionView {
        match *self {
            Action::Connect => ActionView::Connect,
            Action::Read { slot, address, count } => ActionView::Read { slot, address, count },
            Action::Render { value } => ActionView::Render { value },
            Action::Reply { success, body } => ActionView::Reply { success, body: body@ },
        }
    }
}

impl View for Event {
    type V = EventView;

    open spec fn view(&self) -> EventView {
        match *self {
            Event::Connected { .. } => EventView::Connected,
            Event::ConnectFailed { cause } => EventView::ConnectFailed { cause: cause@ },
            Event::Words { words } => EventView::Words { words: words@ },
            Event::ReadFailed { cause } => EventView::ReadFailed { cause: cause@ },
            Event::Rendered { text } => EventView::Rendered { text: text@ },
        }
    }
}

/// A scrape in the abstract: what it waits for, whom it scrapes, the slot of
/// its session, the values rendered so far and the lines made of them.
pub ghost struct ScrapeState {
    pub phase: Phase,
    pub address: RemoteAddress,
    pub address_text: Seq<char>,
    pub device: Seq<char>,
    pub slot: usize,
    pub values: Seq<Seq<char>>,
    pub report: Seq<char>,
}

impl ScrapeState {
    /// The number of descriptors done.
    pub open spec fn position(self) -> int {
        self.values.len() as int
    }

    /// The report holds the lines of the descriptors done, in catalog order, and
    /// a scrape that waits for a read or a rendering has a descriptor to wait for.
    pub open spec fn wf(self, catalog: Seq<DescriptorText>) -> bool {
        &&& self.values.len() <= catalog.len()
        &&& self.report == report_text(catalog.take(self.position()), self.device, self.values)
        &&& self.phase == Phase::Connecting ==> self.values.len() == 0
        &&& self.phase == Phase::Reading ==> self.values.len() < catalog.len()
        &&& self.phase == Phase::Rendering ==> self.values.len() < catalog.len()
            && catalog[self.position()].value_type != ModbusType::U16
    }

    /// The state with one more descriptor done, its value rendered as `text`.
    pub open spec fn with_line(self, catalog: Seq<DescriptorText>, text: Seq<char>) -> ScrapeState {
        ScrapeState {
            phase: phase_at(catalog, self.position() + 1),
            values: self.values.push(text),
            report: self.report + line_text(catalog[self.position()], self.device, text),
            ..self
        }
    }

    /// The state of a scrape that failed: nothing of the report is kept.
    pub open spec fn failed(self) -> ScrapeState {
        ScrapeState { phase: Phase::Finished, values: Seq::empty(), report: Seq::empty(), ..self }
    }
}

/// What a scrape with `position` descriptors done waits for.
pub open spec fn phase_at(catalog: Seq<DescriptorText>, position: int) -> Phase {
    if position < catalog.len() {
        Phase::Reading
    } else {
        Phase::Finished
    }
}

/// What a scrape with `position` descriptors done asks for: the read of the
/// next descriptor, or the reply with the whole report.
pub open spec fn request_at(
    catalog: Seq<DescriptorText>,
    slot: usize,
    position: int,
    report: Seq<char>,
) -> ActionView {
    if position < catalog.len() {
        ActionView::Read {
            slot,
            address: catalog[position].address,
            count: catalog[position].value_type.word_count() as u16,
        }
    } else {
        ActionView::Reply { success: true, body: report }
    }
}

/// How a scrape begins: with the slot of the session that the pool holds for
/// the address and the first read, or, where it holds none, with a connect.
pub open spec fn begins(
    catalog: Seq<DescriptorText>,
    pool: Seq<RemoteAddress>,
    address: RemoteAddress,
    address_text: Seq<char>,
    device: Seq<char>,
    state: ScrapeState,
    action: ActionView,
) -> bool {
    &&& state.address == address
    &&& state.address_text == address_text
    &&& state.device == device
    &&& state.values == Seq::<Seq<char>>::empty()
    &&& state.report == Seq::<char>::empty()
    &&& if pool.contains(address) {
        &&& state.slot < pool.len()
        &&& pool[state.slot as int] == address
        &&& state.phase == phase_at(catalog, 0)
        &&& action == request_at(catalog, state.slot, 0, Seq::empty())
    } else {
        &&& state.slot == 0
        &&& state.phase == Phase::Connecting
        &&& action == ActionView::Connect
    }
}

/// Whether `event` answers what the scrape waits for.
pub open spec fn accepts(
    catalog: Seq<DescriptorText>,
    pool: Seq<RemoteAddress>,
    state: ScrapeState,
    event: EventView,
) -> bool {
    match event {
        EventView::Connected => state.phase == Phase::Connecting && !pool.contains(state.address),
        EventView::ConnectFailed { cause } => state.phase == Phase::Connecting,
        EventView::Words { words } => state.phase == Phase::Reading && state.position()
            < catalog.len() && words.len() == catalog[state.position()].value_type.word_count(),
        EventView::ReadFailed { cause } => state.phase == Phase::Reading,
        EventView::Rendered { text } => state.phase == Phase::Rendering,
    }
}

/// The state after `event`.
pub open spec fn next_state(
    catalog: Seq<DescriptorText>,
    pool: Seq<RemoteAddress>,
    state: ScrapeState,
    event: EventView,
) -> ScrapeState {
    match event {
        EventView::Connected => ScrapeState {
            phase: phase_at(catalog, 0),
            slot: pool.len() as usize,
            ..state
        },
        EventView::ConnectFailed { cause } => state.failed(),
        EventView::Words { words } => match catalog[state.position()].value_type {
            ModbusType::U16 => state.with_line(catalog, decimal_text(words[0] as nat)),
            _ => ScrapeState { phase: Phase::Rendering, ..state },
        },
        EventView::ReadFailed { cause } => state.failed(),
        EventView::Rendered { text } => state.with_line(catalog, text),
    }
}

/// The action after `event`.
pub open spec fn next_action(
    catalog: Seq<DescriptorText>,
    pool: Seq<RemoteAddress>,
    state: ScrapeState,
    event: EventView,
) -> ActionView {
    let after = next_state(catalog, pool, state, event);
    match event {
        EventView::ConnectFailed { cause } => ActionView::Reply {
            success: false,
            body: connect_failure_text(state.address_text, cause),
        },
        EventView::ReadFailed { cause } => ActionView::Reply {
            success: false,
            body: read_failure_text(cause),
        },
        EventView::Words { words } => match catalog[state.position()].value_type {
            ModbusType::U16 => request_at(catalog, after.slot, after.position(), after.report),
            value_type => ActionView::Render { value: decoded(value_type, words) },
        },
        _ => request_at(catalog, after.slot, after.position(), after.report),
    }
}

/// The pool after `event`: one address longer once a session was opened, else
/// as it was.
pub open spec fn next_pool(pool: Seq<RemoteAddress>, state: ScrapeState, event: EventView) -> Seq<
    RemoteAddress,
> {
    match event {
        EventView::Connected => pool.push(state.address),
        _ => pool,
    }
}

/// A scrape begins well-formed, with no line made; on an empty catalog and an
/// open session it replies at once, with the empty report.
pub proof fn lemma_begin_is_well_formed(
    catalog: Seq<DescriptorText>,
    pool: Seq<RemoteAddress>,
    address: RemoteAddress,
    address_text: Seq<char>,
    device: Seq<char>,
    state: ScrapeState,
    action: ActionView,
)
    requires
        begins(catalog, pool, address, address_text, device, state, action),
    ensures
        state.wf(catalog),
        state.position() == 0,
        action is Connect <==> !pool.contains(address),
        (action matches ActionView::Reply { success, body } ==> success && catalog.len() == 0
            && body == report_text(catalog, device, state.values)),
{
    assert(catalog.take(0) =~= Seq::<DescriptorText>::empty());
    assert(report_text(catalog.take(0), device, state.values) =~= Seq::<char>::empty());
    if catalog.len() == 0 {
        assert(catalog =~= catalog.take(0));
    }
}

/// Every step keeps the report in catalog order: after it the report is again
/// the lines of the descriptors done, first to last, and a reply that reports
/// success carries the line of every descriptor of the catalog.
pub proof fn lemma_step_keeps_order(
    catalog: Seq<DescriptorText>,
    pool: Seq<RemoteAddress>,
    state: ScrapeState,
    event: EventView,
)
    requires
        state.wf(catalog),
        accepts(catalog, pool, state, event),
    ensures
        next_state(catalog, pool, state, event).wf(catalog),
        (next_action(catalog, pool, state, event) matches ActionView::Reply { success: true, body }
            ==> {
            let after = next_state(catalog, pool, state, event);
            &&& after.values.len() == catalog.len()
            &&& after.phase == Phase::Finished
            &&& body == report_text(catalog, after.device, after.values)
        }),
{
    let after = next_state(catalog, pool, state, event);
    assert(catalog.take(catalog.len() as int) =~= catalog);
    assert(report_text(catalog.take(0), state.device, Seq::<Seq<char>>::empty()) =~= Seq::<
        char,
    >::empty());
    if state.position() < catalog.len() {
        match event {
            EventView::Words { words } => {
                crate::text::lemma_report_grows(
                    catalog,
                    state.device,
                    state.values,
                    decimal_text(words[0] as nat),
                );
            },
            EventView::Rendered { text } => {
                crate::text::lemma_report_grows(catalog, state.device, state.values, text);
            },
            _ => {},
        }
    }
}

/// A failed read leaves nothing of the lines made before it: whatever the
/// scrape had gathered, the reply is the failure message alone and the state
/// holds no line.
pub proof fn lemma_read_failure_discards_lines(
    catalog: Seq<DescriptorText>,
    pool: Seq<RemoteAddress>,
    state: ScrapeState,
    cause: Seq<char>,
)
    ensures
        next_action(catalog, pool, state, EventView::ReadFailed { cause }) == (ActionView::Reply {
            success: false,
            body: read_failure_text(cause),
        }),
        next_state(catalog, pool, state, EventView::ReadFailed { cause }).report == Seq::<
            char,
        >::empty(),
        next_state(catalog, pool, state, EventView::ReadFailed { cause }).phase == Phase::Finished,
        next_pool(pool, state, EventView::ReadFailed { cause }) == pool,
{
}

/// A connect that failed is not tried again: the reply is the failure message
/// with the address and the cause, the scrape is over, and the pool holds no
/// entry for the address that it did not hold before.
pub proof fn lemma_failed_connect_ends_the_scrape(
    catalog: Seq<DescriptorText>,
    pool: Seq<RemoteAddress>,
    state: ScrapeState,
    cause: Seq<char>,
)
    ensures
        next_action(catalog, pool, state, EventView::ConnectFailed { cause }) == (
        ActionView::Reply {
            success: false,
            body: connect_failure_text(state.address_text, cause),
        }),
        next_state(catalog, pool, state, EventView::ConnectFailed { cause }).phase
            == Phase::Finished,
        next_pool(pool, state, EventView::ConnectFailed { cause }) == pool,
        forall|event: EventView|
            !accepts(
                catalog,
                pool,
                next_state(catalog, pool, state, EventView::ConnectFailed { cause }),
                event,
            ),
{
}

/// One connect per address: a scrape of an address without a session begins
/// with a connect; once that session is open, a scrape of the same address
/// begins on its slot without a connect, and the sessions opened before keep
/// their slots.
pub proof fn lemma_one_connect_per_address(
    catalog: Seq<DescriptorText>,
    pool: Seq<RemoteAddress>,
    first: ScrapeState,
    first_action: ActionView,
    second: ScrapeState,
    second_action: ActionView,
)
    requires
        pool.no_duplicates(),
        !pool.contains(first.address),
        begins(
            catalog,
            pool,
            first.address,
            first.address_text,
            first.device,
            first,
            first_action,
        ),
        begins(
            catalog,
            next_pool(pool, first, EventView::Connected),
            first.address,
            second.address_text,
            second.device,
            second,
            second_action,
        ),
    ensures
        first_action == ActionView::Connect,
        accepts(catalog, pool, first, EventView::Connected),
        next_pool(pool, first, EventView::Connected).no_duplicates(),
        !(second_action is Connect),
        second.slot == pool.len(),
        pool.len() <= usize::MAX ==> second.slot == next_state(
            catalog,
            pool,
            first,
            EventView::Connected,
        ).slot,
        forall|slot: int|
            0 <= slot < pool.len() ==> next_pool(pool, first, EventView::Connected)[slot]
                == pool[slot],
{
    crate::pool::lemma_session_is_reused(pool, first.address);
    let after = pool.push(first.address);
    assert(after[second.slot as int] == after[pool.len() as int]);
}

/// A scrape under way.
pub struct Scrape {
    phase: Phase,
    address: RemoteAddress,
    address_text: String,
    device: String,
    slot: usize,
    position: usize,
    values: Ghost<Seq<Seq<char>>>,
    report: String,
}

impl View for Scrape {
    type V = ScrapeState;

    closed spec fn view(&self) -> ScrapeState {
        ScrapeState {
            phase: self.phase,
            address: self.address,
            address_text: self.address_text@,
            device: self.device@,
            slot: self.slot,
            values: self.values@,
            report: self.report@,
        }
    }
}

impl Scrape {
    /// The scrape is a well-formed state of a scrape of `catalog`.
    pub closed spec fn wf(&self, catalog: Seq<DescriptorText>) -> bool {
        &&& self.position == self.values@.len()
        &&& self@.wf(catalog)
    }

    /// Begins a scrape: looks the address up in the pool and asks for the first
    /// read over the session found there, or for a connect where there is none.
    pub fn begin(
        catalog: &Vec<MetricDescriptor>,
        pool: &ConnectionPool,
        request: ScrapeRequest,
    ) -> (started: (Scrape, Action))
        requires
            pool.wf(),
        ensures
            started.0.wf(catalog_view(catalog@)),
            begins(
                catalog_view(catalog@),
                pool@,
                request.address,
                request.address_text@,
                request.device_label@,
                started.0@,
                started.1@,
            ),
    {
        let ghost cat = catalog_view(catalog@);
        let found = pool.slot_of(request.address);
        let mut scrape = Scrape {
            phase: Phase::Connecting,
            address: request.address,
            address_text: request.address_text,
            device: request.device_label,
            slot: 0,
            position: 0,
            values: Ghost(Seq::empty()),
            report: String::new(),
        };
        proof {
            assert(report_text(cat.take(0), scrape.device@, Seq::<Seq<char>>::empty()) =~= Seq::<
                char,
            >::empty());
        }
        match found {
            Some(slot) => {
                scrape.slot = slot;
                let action = scrape.request(catalog);
                (scrape, action)
            },
            None => (scrape, Action::Connect),
        }
    }

    /// What the scrape waits for.
    pub fn phase(&self) -> (phase: Phase)
        ensures
            phase == self@.phase,
    {
        self.phase
    }

    /// Whether `event` answers what the scrape waits for: a step takes no other.
    pub fn accepts(
        &self,
        catalog: &Vec<MetricDescriptor>,
        pool: &ConnectionPool,
        event: &Event,
    ) -> (yes: bool)
        requires
            self.wf(catalog_view(catalog@)),
        ensures
            yes == accepts(catalog_view(catalog@), pool@, self@, event@),
    {
        match event {
            Event::Connected { session: _ } => self.phase == Phase::Connecting && pool.slot_of(
                self.address,
            ).is_none(),
            Event::ConnectFailed { cause: _ } => self.phase == Phase::Connecting,
            Event::Words { words } => self.phase == Phase::Reading
                && self.position < catalog.len()
                && words.len() == catalog[self.position].value_type.register_count() as usize,
            Event::ReadFailed { cause: _ } => self.phase == Phase::Reading,
            Event::Rendered { text: _ } => self.phase == Phase::Rendering,
        }
    }

    /// Takes one event and gives the next action.
    pub fn step(
        &mut self,
        catalog: &Vec<MetricDescriptor>,
        pool: &mut ConnectionPool,
        event: Event,
    ) -> (action: Action)
        requires
            old(self).wf(catalog_view(catalog@)),
            old(pool).wf(),
            accepts(catalog_view(catalog@), old(pool)@, old(self)@, event@),
        ensures
            final(self).wf(catalog_view(catalog@)),
            final(pool).wf(),
            final(self)@ == next_state(catalog_view(catalog@), old(pool)@, old(self)@, event@),
            final(pool)@ == next_pool(old(pool)@, old(self)@, event@),
            final(pool).sessions().take(old(pool)@.len() as int) == old(pool).sessions(),
            action@ == next_action(catalog_view(catalog@), old(pool)@, old(self)@, event@),
    {
        let ghost cat = catalog_view(catalog@);
        proof {
            lemma_step_keeps_order(cat, old(pool)@, old(self)@, event@);
        }
        match event {
            Event::Connected { session } => {
                let slot = pool.insert(self.address, session);
                self.slot = slot;
                self.request(catalog)
            },
            Event::ConnectFailed { cause } => {
                let body = connect_failure(self.address_text.as_str(), cause.as_str());
                self.fail();
                Action::Reply { success: false, body }
            },
            Event::Words { words } => {
                let value = decode(catalog[self.position].value_type, words.as_slice());
                match value {
                    Value::U16(word) => {
                        let text = render_u16(word);
                        self.push_line(catalog, text.as_str());
                        self.request(catalog)
                    },
                    _ => {
                        self.phase = Phase::Rendering;
                        Action::Render { value }
                    },
                }
            },
            Event::ReadFailed { cause } => {
                let body = read_failure(cause.as_str());
                self.fail();
                Action::Reply { success: false, body }
            },
            Event::Rendered { text } => {
                self.push_line(catalog, text.as_str());
                self.request(catalog)
            },
        }
    }

    /// Sets the phase by the position and gives the read or the reply that
    /// belongs to it.
    fn request(&mut self, catalog: &Vec<MetricDescriptor>) -> (action: Action)
        requires
            old(self).position == old(self).values@.len(),
            old(self).position <= catalog@.len(),
        ensures
            final(self)@ == (ScrapeState {
                phase: phase_at(catalog_view(catalog@), old(self)@.position()),
                ..old(self)@
            }),
            final(self).position == old(self).position,
            action@ == request_at(
                catalog_view(catalog@),
                old(self).slot,
                old(self)@.position(),
                old(self).report@,
            ),
    {
        if self.position < catalog.len() {
            let descriptor = &catalog[self.position];
            self.phase = Phase::Reading;
            Action::Read {
                slot: self.slot,
                address: descriptor.address,
                count: descriptor.value_type.register_count(),
            }
        } else {
            self.phase = Phase::Finished;
            Action::Reply { success: true, body: self.report.clone() }
        }
    }

    /// Appends the line of the descriptor at the position, with `text` for its value.
    fn push_line(&mut self, catalog: &Vec<MetricDescriptor>, text: &str)
        requires
            old(self).position == old(self).values@.len(),
            old(self).position < catalog@.len(),
        ensures
            final(self)@ == (ScrapeState {
                phase: old(self)@.phase,
                ..old(self)@.with_line(catalog_view(catalog@), text@)
            }),
            final(self).position == old(self).position + 1,
    {
        let total = catalog.len();
        let line = format_line(&catalog[self.position], self.device.as_str(), text);
        self.report.append(line.as_str());
        assert(self.position < total);
        self.position = self.position + 1;
        self.values = Ghost(self.values@.push(text@));
    }

    /// Ends the scrape and drops what it had gathered.
    fn fail(&mut self)
        ensures
            final(self)@ == old(self)@.failed(),
            final(self).position == 0,
    {
        self.phase = Phase::Finished;
        self.position = 0;
        self.values = Ghost(Seq::empty());
        self.report = String::new();
    }
}

} // verus!
