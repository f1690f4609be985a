//! The session manager: the table of connected instruments, the identifiers
//! it hands out, and the operations that reach an instrument through its
//! identifier.
//!
//! Identifiers are never reused: each connection takes the next number, and
//! a disconnection leaves the counter where it is.

use crate::device::{
    command_outcome, identify_outcome, reading_outcome, reset_failure, Device, DeviceInfo,
    DeviceInfoView, DeviceType, DeviceView, Measurement, MeasurementView, Timestamp,
};
use crate::error::{agrees, error_text, Error, ErrorView};
use crate::identifier::{device_id, device_id_text, lemma_device_id_injective};
use crate::text::same_text;
use vstd::prelude::*;
use vstd::string::*;

verus! {

/// What a successful connection reports.
#[derive(Debug, Clone, PartialEq, Eq)]
pub struct ConnectDeviceResponse {
    pub id: String,
    pub device_type: DeviceType,
    pub info: DeviceInfo,
}

/// `ConnectDeviceResponse` by view.
pub struct ConnectDeviceResponseView {
    pub id: Seq<char>,
    pub device_type: DeviceType,
    pub info: DeviceInfoView,
}

impl View for ConnectDeviceResponse {
    type V = ConnectDeviceResponseView;

    open spec fn view(&self) -> ConnectDeviceResponseView {
        ConnectDeviceResponseView {
            id: self.id@,
            device_type: self.device_type,
            info: self.info@,
        }
    }
}

/// The status of one session.
#[derive(Debug, Clone, PartialEq, Eq)]
pub struct DeviceListItem {
    pub id: String,
    pub device_type: DeviceType,
    pub info: DeviceInfo,
    pub connected: bool,
}

/// `DeviceListItem` by view.
pub struct DeviceListItemView {
    pub id: Seq<char>,
    pub device_type: DeviceType,
    pub info: DeviceInfoView,
    pub connected: bool,
}

impl View for DeviceListItem {
    type V = DeviceListItemView;

    open spec fn view(&self) -> DeviceListItemView {
        DeviceListItemView {
            id: self.id@,
            device_type: self.device_type,
            info: self.info@,
            connected: self.connected,
        }
    }
}

/// Whether the manager reports `expected` for an attempted operation: the
/// value as it is, a failure as the attempt followed by the error's text.
pub open spec fn reported<T: View>(
    result: Result<T, String>,
    attempt: Seq<char>,
    expected: Result<T::V, ErrorView>,
) -> bool {
    match expected {
        Ok(v) => result matches Ok(x) && x@ == v,
        Err(e) => result matches Err(text) && text@ == failure_text(attempt, e),
    }
}

/// One entry of the table as contracts see it.
pub struct SessionView {
    /// The number from which the identifier was made.
    pub number: nat,
    pub id: Seq<char>,
    pub device_type: DeviceType,
    pub info: DeviceInfoView,
    pub device: DeviceView,
}

/// The table as contracts see it: the sessions in the order in which they
/// were connected, and the number that the next connection takes.
pub struct AppStateView {
    pub sessions: Seq<SessionView>,
    pub next_device_id: nat,
}

/// What holds of every table: numbers start at one, each session carries the
/// identifier of its number, is connected and of the kind recorded for it,
/// and numbers grow along the table and stay below the next one to be
/// handed out.
pub open spec fn well_formed(table: AppStateView) -> bool {
    &&& table.next_device_id >= 1
    &&& forall|i: int|
        0 <= i < table.sessions.len() ==> {
            &&& 1 <= (#[trigger] table.sessions[i]).number < table.next_device_id
            &&& table.sessions[i].id == device_id_text(table.sessions[i].number)
            &&& table.sessions[i].device.connected()
            &&& table.sessions[i].device_type == table.sessions[i].device.device_type()
        }
    &&& forall|i: int, j: int|
        0 <= i < j < table.sessions.len() ==> (#[trigger] table.sessions[i]).number < (
        #[trigger] table.sessions[j]).number
}

/// The position of the session with identifier `id` at or after `from`.
pub open spec fn lookup_from(sessions: Seq<SessionView>, id: Seq<char>, from: int) -> Option<int>
    decreases sessions.len() - from,
{
    if from < 0 || from >= sessions.len() {
        None
    } else if sessions[from].id == id {
        Some(from)
    } else {
        lookup_from(sessions, id, from + 1)
    }
}

/// The position of the session with identifier `id`, if there is one.
pub open spec fn lookup(sessions: Seq<SessionView>, id: Seq<char>) -> Option<int> {
    lookup_from(sessions, id, 0)
}

/// The table after a connection: the new session stands last, under the
/// number that was next.
pub open spec fn registered(
    table: AppStateView,
    info: DeviceInfoView,
    device: DeviceView,
) -> AppStateView {
    AppStateView {
        sessions: table.sessions.push(
            SessionView {
                number: table.next_device_id,
                id: device_id_text(table.next_device_id),
                device_type: device.device_type(),
                info,
                device,
            },
        ),
        next_device_id: table.next_device_id + 1,
    }
}

/// The table without the session at `position`; the counter stays.
pub open spec fn unregistered(table: AppStateView, position: int) -> AppStateView {
    AppStateView { sessions: table.sessions.remove(position), ..table }
}

/// The table with the session at `position` holding `device`.
pub open spec fn with_device(table: AppStateView, position: int, device: DeviceView) -> AppStateView {
    AppStateView {
        sessions: table.sessions.update(
            position,
            SessionView { device, ..table.sessions[position] },
        ),
        ..table
    }
}

/// The status entry of a session.
pub open spec fn status_of(session: SessionView) -> DeviceListItemView {
    DeviceListItemView {
        id: session.id,
        device_type: session.device_type,
        info: session.info,
        connected: session.device.connected(),
    }
}

/// The failure for an identifier that the table does not hold.
pub open spec fn not_found_text(id: Seq<char>) -> Seq<char> {
    "Device "@ + id + " not found"@
}

/// The failure of an operation: what was attempted, then the error's text.
pub open spec fn failure_text(attempt: Seq<char>, e: ErrorView) -> Seq<char> {
    attempt + error_text(e)
}

/// What `lookup_from` finds is the first session at or after `from` that
/// carries the identifier; it finds none only where no session does.
pub proof fn lemma_lookup_from(sessions: Seq<SessionView>, id: Seq<char>, from: int)
    requires
        0 <= from,
    ensures
        match lookup_from(sessions, id, from) {
            Some(k) => from <= k < sessions.len() && sessions[k].id == id && forall|j: int|
                from <= j < k ==> (#[trigger] sessions[j]).id != id,
            None => forall|j: int| from <= j < sessions.len() ==> (#[trigger] sessions[j]).id != id,
        },
    decreases sessions.len() - from,
{
    if from < sessions.len() && sessions[from].id != id {
        lemma_lookup_from(sessions, id, from + 1);
    }
}

/// In a well-formed table no two sessions carry the same identifier.
pub proof fn lemma_identifiers_distinct(table: AppStateView, i: int, j: int)
    requires
        well_formed(table),
        0 <= i < table.sessions.len(),
        0 <= j < table.sessions.len(),
        table.sessions[i].id == table.sessions[j].id,
    ensures
        i == j,
{
    lemma_device_id_injective(table.sessions[i].number, table.sessions[j].number);
}

/// Identifiers grow with every connection and are never handed out twice:
/// the table stays well formed, the new session takes the number that was
/// next, which is above the number of every session in the table, and its
/// identifier differs from that of every number handed out before.
pub proof fn lemma_connect_takes_fresh_identifier(
    table: AppStateView,
    info: DeviceInfoView,
    device: DeviceView,
)
    requires
        well_formed(table),
        device.connected(),
    ensures
        well_formed(registered(table, info, device)),
        registered(table, info, device).next_device_id == table.next_device_id + 1,
        forall|i: int|
            0 <= i < table.sessions.len() ==> (#[trigger] table.sessions[i]).number
                < table.next_device_id,
        forall|earlier: nat|
            earlier < table.next_device_id ==> #[trigger] device_id_text(earlier) != device_id_text(
                table.next_device_id,
            ),
        lookup(registered(table, info, device).sessions, device_id_text(table.next_device_id))
            == Some(table.sessions.len() as int),
{
    let after = registered(table, info, device);
    let id = device_id_text(table.next_device_id);
    assert forall|earlier: nat| earlier < table.next_device_id implies #[trigger] device_id_text(
        earlier,
    ) != id by {
        if device_id_text(earlier) == id {
            lemma_device_id_injective(earlier, table.next_device_id);
        }
    }
    assert forall|i: int, j: int| 0 <= i < j < after.sessions.len() implies (
    #[trigger] after.sessions[i]).number < (#[trigger] after.sessions[j]).number by {
        if j < table.sessions.len() {
            assert(table.sessions[i].number < table.sessions[j].number);
        } else {
            assert(table.sessions[i].number < table.next_device_id);
        }
    }
    lemma_lookup_from(after.sessions, id, 0);
    match lookup(after.sessions, id) {
        Some(k) => {
            if k < table.sessions.len() {
                assert(table.sessions[k].id == device_id_text(table.sessions[k].number));
                assert(table.sessions[k].number < table.next_device_id);
            }
        },
        None => {
            assert(after.sessions[table.sessions.len() as int].id == id);
        },
    }
}

/// A disconnection leaves the table well formed and the counter where it
/// was, and makes the identifier unknown: looking it up finds nothing.
pub proof fn lemma_disconnect_forgets_identifier(table: AppStateView, id: Seq<char>)
    requires
        well_formed(table),
        lookup(table.sessions, id) is Some,
    ensures
        well_formed(unregistered(table, lookup(table.sessions, id)->0)),
        unregistered(table, lookup(table.sessions, id)->0).next_device_id == table.next_device_id,
        lookup(unregistered(table, lookup(table.sessions, id)->0).sessions, id) is None,
{
    let k = lookup(table.sessions, id)->0;
    lemma_lookup_from(table.sessions, id, 0);
    let after = unregistered(table, k);
    assert forall|i: int| 0 <= i < after.sessions.len() implies {
        &&& 1 <= (#[trigger] after.sessions[i]).number < after.next_device_id
        &&& after.sessions[i].id == device_id_text(after.sessions[i].number)
        &&& after.sessions[i].device.connected()
        &&& after.sessions[i].device_type == after.sessions[i].device.device_type()
    } by {
        if i < k {
            assert(after.sessions[i] == table.sessions[i]);
        } else {
            assert(after.sessions[i] == table.sessions[i + 1]);
        }
    }
    assert forall|i: int, j: int| 0 <= i < j < after.sessions.len() implies (
    #[trigger] after.sessions[i]).number < (#[trigger] after.sessions[j]).number by {
        let a = if i < k { i } else { i + 1 };
        let b = if j < k { j } else { j + 1 };
        assert(after.sessions[i] == table.sessions[a]);
        assert(after.sessions[j] == table.sessions[b]);
        assert(table.sessions[a].number < table.sessions[b].number);
    }
    lemma_lookup_from(after.sessions, id, 0);
    if let Some(m) = lookup(after.sessions, id) {
        let a = if m < k { m } else { m + 1 };
        assert(after.sessions[m] == table.sessions[a]);
        lemma_identifiers_distinct(table, a, k);
    }
}

/// Connecting, then disconnecting, makes the identifier unknown to every
/// later operation, whatever else the table holds.
pub proof fn lemma_connect_then_disconnect(
    table: AppStateView,
    info: DeviceInfoView,
    device: DeviceView,
)
    requires
        well_formed(table),
        device.connected(),
    ensures
        ({
            let id = device_id_text(table.next_device_id);
            let connected = registered(table, info, device);
            &&& lookup(connected.sessions, id) == Some(table.sessions.len() as int)
            &&& lookup(unregistered(connected, table.sessions.len() as int).sessions, id) is None
        }),
{
    lemma_connect_takes_fresh_identifier(table, info, device);
    lemma_disconnect_forgets_identifier(
        registered(table, info, device),
        device_id_text(table.next_device_id),
    );
}

/// One event in the life of the table.
pub enum TableEvent {
    /// A connection attempt on `device` whose identification came to
    /// `identified`.
    Connect { device: DeviceView, identified: Result<DeviceInfoView, ErrorView> },
    /// A disconnection of the identifier `id`.
    Disconnect { id: Seq<char> },
    /// A reset of the identifier `id` that left its session as `device`.
    Reset { id: Seq<char>, device: DeviceView },
}

/// The table after an event. A failed connection and an event on an unknown
/// identifier leave it as it was.
pub open spec fn after_event(table: AppStateView, event: TableEvent) -> AppStateView {
    match event {
        TableEvent::Connect { device, identified } => match identified {
            Ok(info) => registered(table, info, device),
            Err(_) => table,
        },
        TableEvent::Disconnect { id } => match lookup(table.sessions, id) {
            Some(i) => unregistered(table, i),
            None => table,
        },
        TableEvent::Reset { id, device } => match lookup(table.sessions, id) {
            Some(i) => with_device(table, i, device),
            None => table,
        },
    }
}

/// What the operations grant of an event: only a connected session is
/// identified, and a reset leaves a session connected and of its kind.
pub open spec fn admissible(table: AppStateView, event: TableEvent) -> bool {
    match event {
        TableEvent::Connect { device, identified } => identified is Ok ==> device.connected(),
        TableEvent::Disconnect { id } => true,
        TableEvent::Reset { id, device } => match lookup(table.sessions, id) {
            Some(i) => device.connected() && device.device_type()
                == table.sessions[i].device_type,
            None => true,
        },
    }
}

/// The table after a history of events.
pub open spec fn after_events(table: AppStateView, events: Seq<TableEvent>) -> AppStateView
    decreases events.len(),
{
    if events.len() == 0 {
        table
    } else {
        after_event(after_events(table, events.drop_last()), events.last())
    }
}

/// Whether every event of a history is admissible where it happens.
pub open spec fn all_admissible(table: AppStateView, events: Seq<TableEvent>) -> bool
    decreases events.len(),
{
    if events.len() == 0 {
        true
    } else {
        &&& all_admissible(table, events.drop_last())
        &&& admissible(after_events(table, events.drop_last()), events.last())
    }
}

/// The numbers handed out over a history, in the order of the connections
/// that took them.
pub open spec fn issued(table: AppStateView, events: Seq<TableEvent>) -> Seq<nat>
    decreases events.len(),
{
    if events.len() == 0 {
        Seq::<nat>::empty()
    } else {
        let earlier = issued(table, events.drop_last());
        match events.last() {
            TableEvent::Connect { device, identified } => if identified is Ok {
                earlier.push(after_events(table, events.drop_last()).next_device_id)
            } else {
                earlier
            },
            _ => earlier,
        }
    }
}

/// A reset leaves the table well formed.
pub proof fn lemma_reset_keeps_table(table: AppStateView, position: int, device: DeviceView)
    requires
        well_formed(table),
        0 <= position < table.sessions.len(),
        device.connected(),
        device.device_type() == table.sessions[position].device_type,
    ensures
        well_formed(with_device(table, position, device)),
        with_device(table, position, device).next_device_id == table.next_device_id,
{
    let after = with_device(table, position, device);
    assert forall|i: int, j: int| 0 <= i < j < after.sessions.len() implies (
    #[trigger] after.sessions[i]).number < (#[trigger] after.sessions[j]).number by {
        assert(table.sessions[i].number < table.sessions[j].number);
    }
}

/// Over any history of connections, disconnections and resets, successful
/// or not, and from any well-formed table, the table stays well formed and
/// identifiers are fresh and increasing: the connections take the numbers
/// from the counter on, one after the other, each above every number that
/// the table held at the start, the counter ends behind the last of them,
/// and no two of the identifiers made from them are the same.
pub proof fn lemma_identifiers_over_history(table: AppStateView, events: Seq<TableEvent>)
    requires
        well_formed(table),
        all_admissible(table, events),
    ensures
        well_formed(after_events(table, events)),
        after_events(table, events).next_device_id == table.next_device_id + issued(
            table,
            events,
        ).len(),
        forall|k: int|
            0 <= k < issued(table, events).len() ==> #[trigger] issued(table, events)[k]
                == table.next_device_id + k,
        forall|k: int, i: int|
            0 <= k < issued(table, events).len() && 0 <= i < table.sessions.len() ==> (
            #[trigger] table.sessions[i]).number < #[trigger] issued(table, events)[k],
        forall|j: int, k: int|
            0 <= j < k < issued(table, events).len() ==> device_id_text(
                #[trigger] issued(table, events)[j],
            ) != device_id_text(#[trigger] issued(table, events)[k]),
    decreases events.len(),
{
    if events.len() > 0 {
        let earlier = events.drop_last();
        let before = after_events(table, earlier);
        lemma_identifiers_over_history(table, earlier);
        match events.last() {
            TableEvent::Connect { device, identified } => {
                if let Ok(info) = identified {
                    lemma_connect_takes_fresh_identifier(before, info, device);
                }
            },
            TableEvent::Disconnect { id } => {
                if lookup(before.sessions, id) is Some {
                    lemma_disconnect_forgets_identifier(before, id);
                }
            },
            TableEvent::Reset { id, device } => {
                if let Some(i) = lookup(before.sessions, id) {
                    lemma_lookup_from(before.sessions, id, 0);
                    lemma_reset_keeps_table(before, i, device);
                }
            },
        }
        let numbers = issued(table, events);
        assert forall|j: int, k: int| 0 <= j < k < numbers.len() implies device_id_text(
            #[trigger] numbers[j],
        ) != device_id_text(#[trigger] numbers[k]) by {
            if device_id_text(numbers[j]) == device_id_text(numbers[k]) {
                lemma_device_id_injective(numbers[j], numbers[k]);
            }
        }
    }
}

struct ManagedDevice {
    number: u32,
    id: String,
    device_type: DeviceType,
    info: DeviceInfo,
    device: Device,
}

impl View for ManagedDevice {
    type V = SessionView;

    closed spec fn view(&self) -> SessionView {
        SessionView {
            number: self.number as nat,
            id: self.id@,
            device_type: self.device_type,
            info: self.info@,
            device: self.device@,
        }
    }
}

/// The table of connected instruments.
pub struct AppState {
    devices: Vec<ManagedDevice>,
    next_device_id: u32,
}

impl View for AppState {
    type V = AppStateView;

    closed spec fn view(&self) -> AppStateView {
        AppStateView {
            sessions: Seq::new(self.devices@.len(), |i: int| self.devices@[i]@),
            next_device_id: self.next_device_id as nat,
        }
    }
}

fn copy_of(info: &DeviceInfo) -> (copy: DeviceInfo)
    ensures
        copy@ == info@,
{
    DeviceInfo {
        model: info.model.clone(),
        serial_number: info.serial_number.clone(),
        software_version: info.software_version.clone(),
    }
}

fn not_found(device_id: &str) -> (text: String)
    ensures
        text@ == not_found_text(device_id@),
{
    let mut text = String::from_str("Device ");
    text.append(device_id);
    text.append(" not found");
    text
}

fn failure(attempt: &str, e: &Error) -> (text: String)
    ensures
        text@ == failure_text(attempt@, e@),
{
    let detail = e.message();
    String::from_str(attempt).concat(detail.as_str())
}

impl AppState {
    #[verifier::type_invariant]
    spec fn inv(&self) -> bool {
        well_formed(self@)
    }

    /// An empty table whose first session will be number one.
    pub fn new() -> (state: Self)
        ensures
            state@.sessions.len() == 0,
            state@.next_device_id == 1,
            well_formed(state@),
    {
        AppState { devices: Vec::new(), next_device_id: 1 }
    }

    /// Whether a number is left for one more connection.
    pub fn has_free_identifier(&self) -> (free: bool)
        ensures
            free == (self@.next_device_id < u32::MAX),
            well_formed(self@),
    {
        proof {
            use_type_invariant(self);
        }
        self.next_device_id < u32::MAX
    }

    fn find(&self, device_id: &str) -> (found: Option<usize>)
        ensures
            well_formed(self@),
            match found {
                Some(i) => lookup(self@.sessions, device_id@) == Some(i as int) && i
                    < self.devices@.len(),
                None => lookup(self@.sessions, device_id@) is None,
            },
    {
        proof {
            use_type_invariant(self);
        }
        let mut i: usize = 0;
        while i < self.devices.len()
            invariant
                i <= self.devices@.len(),
                well_formed(self@),
                lookup(self@.sessions, device_id@) == lookup_from(
                    self@.sessions,
                    device_id@,
                    i as int,
                ),
            decreases self.devices@.len() - i,
        {
            if same_text(self.devices[i].id.as_str(), device_id) {
                return Some(i);
            }
            i += 1;
        }
        None
    }

    /// The session with identifier `device_id`, if the table holds it.
    pub fn device(&self, device_id: &str) -> (found: Option<&Device>)
        ensures
            well_formed(self@),
            match lookup(self@.sessions, device_id@) {
                Some(i) => found matches Some(device) && device@ == self@.sessions[i].device,
                None => found is None,
            },
    {
        match self.find(device_id) {
            Some(i) => Some(&self.devices[i].device),
            None => None,
        }
    }
}

/// Reads a device kind from the text of a connection request.
pub fn parse_device_type(device_type: &str) -> (result: Result<DeviceType, String>)
    ensures
        match crate::device::device_type_named(device_type@) {
            Some(t) => result == Ok::<DeviceType, String>(t),
            None => result matches Err(text) && text@ == "Invalid device type"@,
        },
{
    match DeviceType::from_name(device_type) {
        Some(t) => Ok(t),
        None => Err(String::from_str("Invalid device type")),
    }
}

/// The report of a session that could not be connected.
pub fn connect_failed(e: &Error) -> (text: String)
    ensures
        text@ == failure_text("Failed to connect: "@, e@),
{
    failure("Failed to connect: ", e)
}

/// What identifying a session before it enters the table comes to: a
/// failed exchange is the failure; else the session decodes what the
/// exchange brought.
pub open spec fn table_identify(device: DeviceView, exchange: Result<String, Error>) -> Result<
    DeviceInfoView,
    ErrorView,
> {
    match exchange {
        Ok(input) => identify_outcome(device, input@),
        Err(e) => Err(e@),
    }
}

/// Ends a connection attempt: `exchange` is what the identification
/// exchange with the instrument came to. A session that is connected and
/// identifies itself enters the table under the next identifier, which is
/// reported; any failure is reported and leaves the table as it was.
pub fn connect_device(device: Device, exchange: Result<String, Error>, state: &mut AppState) -> (result:
    Result<ConnectDeviceResponse, String>)
    requires
        table_identify(device@, exchange) is Ok ==> old(state)@.next_device_id < u32::MAX,
    ensures
        well_formed(final(state)@),
        final(state)@ == after_event(
            old(state)@,
            TableEvent::Connect { device: device@, identified: table_identify(device@, exchange) },
        ),
        admissible(
            old(state)@,
            TableEvent::Connect { device: device@, identified: table_identify(device@, exchange) },
        ),
        match table_identify(device@, exchange) {
            Ok(info) => final(state)@ == registered(old(state)@, info, device@) && (
            result matches Ok(response) && response@ == (ConnectDeviceResponseView {
                id: device_id_text(old(state)@.next_device_id),
                device_type: device@.device_type(),
                info,
            })),
            Err(e) => final(state)@ == old(state)@ && (result matches Err(text) && text@
                == failure_text("Failed to identify device: "@, e)),
        },
{
    proof {
        use_type_invariant(&*state);
    }
    let identified = match exchange {
        Ok(input) => device.identify(input.as_str()),
        Err(e) => Err(e),
    };
    assert(agrees(identified, table_identify(device@, exchange)));
    let info = match identified {
        Ok(info) => info,
        Err(e) => {
            return Err(failure("Failed to identify device: ", &e));
        },
    };
    let device_type = device.device_type();
    let number = state.next_device_id;
    let id = device_id(number);
    let response = ConnectDeviceResponse { id: id.clone(), device_type, info: copy_of(&info) };
    let entry = ManagedDevice { number, id, device_type, info, device };
    let ghost before = state@;
    let mut taken = AppState::new();
    core::mem::swap(state, &mut taken);
    let AppState { devices, next_device_id: _ } = taken;
    let mut devices = devices;
    devices.push(entry);
    proof {
        let after = AppState { devices, next_device_id: (number + 1) as u32 };
        assert(after@.sessions =~= before.sessions.push(entry@));
        lemma_connect_takes_fresh_identifier(before, info@, device@);
    }
    *state = AppState { devices, next_device_id: number + 1 };
    Ok(response)
}

/// Takes the session with identifier `device_id` out of the table and ends
/// it. The entry is gone whatever ending the session comes to.
pub fn disconnect_device(device_id: &str, state: &mut AppState) -> (result: Result<String, String>)
    ensures
        well_formed(final(state)@),
        final(state)@ == after_event(old(state)@, TableEvent::Disconnect { id: device_id@ }),
        match lookup(old(state)@.sessions, device_id@) {
            Some(i) => final(state)@ == unregistered(old(state)@, i) && (result matches Ok(text)
                && text@ == "Disconnected device "@ + device_id@),
            None => final(state)@ == old(state)@ && (result matches Err(text) && text@
                == not_found_text(device_id@)),
        },
{
    match state.find(device_id) {
        None => Err(not_found(device_id)),
        Some(i) => {
            let ghost before = state@;
            let mut taken = AppState::new();
            core::mem::swap(state, &mut taken);
            let AppState { devices, next_device_id } = taken;
            let mut devices = devices;
            let mut entry = devices.remove(i);
            proof {
                let after = AppState { devices, next_device_id };
                assert(after@.sessions =~= before.sessions.remove(i as int));
            }
            *state = AppState { devices, next_device_id };
            match entry.device.disconnect() {
                Ok(_) => Ok(String::from_str("Disconnected device ").concat(device_id)),
                Err(e) => Err(failure("Failed to disconnect: ", &e)),
            }
        },
    }
}

/// The status of the session with identifier `device_id`.
pub fn get_device_status(device_id: &str, state: &AppState) -> (result: Result<
    DeviceListItem,
    String,
>)
    ensures
        match lookup(state@.sessions, device_id@) {
            Some(i) => result matches Ok(item) && item@ == status_of(state@.sessions[i]),
            None => result matches Err(text) && text@ == not_found_text(device_id@),
        },
{
    match state.find(device_id) {
        None => Err(not_found(device_id)),
        Some(i) => {
            let entry = &state.devices[i];
            Ok(
                DeviceListItem {
                    id: entry.id.clone(),
                    device_type: entry.device_type,
                    info: copy_of(&entry.info),
                    connected: entry.device.is_connected(),
                },
            )
        },
    }
}

/// The status of every session, in the order in which they were connected.
pub fn get_connected_devices(state: &AppState) -> (result: Result<Vec<DeviceListItem>, String>)
    ensures
        result matches Ok(list) && list@.len() == state@.sessions.len() && forall|i: int|
            0 <= i < list@.len() ==> (#[trigger] list@[i])@ == status_of(state@.sessions[i]),
{
    let mut list: Vec<DeviceListItem> = Vec::new();
    let mut i: usize = 0;
    while i < state.devices.len()
        invariant
            i <= state.devices@.len(),
            list@.len() == i,
            forall|j: int| 0 <= j < i ==> (#[trigger] list@[j])@ == status_of(state@.sessions[j]),
        decreases state.devices@.len() - i,
    {
        let entry = &state.devices[i];
        list.push(
            DeviceListItem {
                id: entry.id.clone(),
                device_type: entry.device_type,
                info: copy_of(&entry.info),
                connected: entry.device.is_connected(),
            },
        );
        i += 1;
    }
    Ok(list)
}

/// The operations that take an exchange with the instrument.
#[derive(Debug, Clone, Copy, PartialEq, Eq, Structural)]
pub enum Request {
    Measurement,
    Reset,
    RawCommand,
}

/// The words that open the report of a failed request.
pub open spec fn attempt_text(request: Request) -> Seq<char> {
    match request {
        Request::Measurement => "Failed to get measurement: "@,
        Request::Reset => "Failed to reset device: "@,
        Request::RawCommand => "Failed to send command: "@,
    }
}

/// The command that a request puts on the wire; a raw command is its own.
pub open spec fn command_text(request: Request, raw: Seq<char>) -> Seq<char> {
    match request {
        Request::Measurement => "QM"@,
        Request::Reset => "RI"@,
        Request::RawCommand => raw,
    }
}

impl Request {
    fn attempt(&self) -> (text: &'static str)
        ensures
            text@ == attempt_text(*self),
    {
        match self {
            Request::Measurement => "Failed to get measurement: ",
            Request::Reset => "Failed to reset device: ",
            Request::RawCommand => "Failed to send command: ",
        }
    }
}

/// What a request on a session asks of the owner of the transport: bytes to
/// put on the wire of the hardware, nothing for the simulator, and a
/// failure where the session is not connected.
pub open spec fn exchange_plan(device: DeviceView, command: Seq<char>) -> Result<
    Option<Seq<u8>>,
    ErrorView,
> {
    if !device.connected() {
        Err(crate::fluke::not_connected())
    } else {
        match device {
            DeviceView::Fluke(_) => Ok(Some(vstd::utf8::encode_utf8(command).push(13u8))),
            DeviceView::Mock(_) => Ok(None),
        }
    }
}

/// Opens a request on the session with identifier `device_id`: says what
/// the caller has to transmit before the request can be completed. `raw` is
/// the command of a raw request.
pub fn begin_request(device_id: &str, request: Request, raw: &str, state: &AppState) -> (result:
    Result<Option<Vec<u8>>, String>)
    ensures
        match lookup(state@.sessions, device_id@) {
            Some(i) => match exchange_plan(
                state@.sessions[i].device,
                command_text(request, raw@),
            ) {
                Ok(Some(bytes)) => result matches Ok(Some(out)) && out@ == bytes,
                Ok(None) => result matches Ok(None),
                Err(e) => result matches Err(text) && text@ == failure_text(
                    attempt_text(request),
                    e,
                ),
            },
            None => result matches Err(text) && text@ == not_found_text(device_id@),
        },
{
    match state.find(device_id) {
        None => Err(not_found(device_id)),
        Some(i) => {
            let command = match request {
                Request::Measurement => "QM",
                Request::Reset => "RI",
                Request::RawCommand => raw,
            };
            match state.devices[i].device.transmit(command) {
                Ok(bytes) => Ok(bytes),
                Err(e) => Err(failure(request.attempt(), &e)),
            }
        },
    }
}

fn report<T: View>(result: Result<T, Error>, attempt: &str) -> (out: Result<T, String>)
    ensures
        forall|expected: Result<T::V, ErrorView>| #[trigger]
            agrees(result, expected) ==> reported(out, attempt@, expected),
{
    match result {
        Ok(v) => Ok(v),
        Err(e) => Err(failure(attempt, &e)),
    }
}

/// What a reading through the table comes to: a failed exchange is the
/// failure; else the session decodes what the exchange brought.
pub open spec fn table_reading(
    device: DeviceView,
    exchange: Result<String, Error>,
    timestamp: Option<Timestamp>,
) -> Result<MeasurementView, ErrorView> {
    match exchange {
        Ok(input) => reading_outcome(device, input@, timestamp),
        Err(e) => Err(e@),
    }
}

/// What a raw command through the table comes to.
pub open spec fn table_command(
    device: DeviceView,
    command: Seq<char>,
    exchange: Result<String, Error>,
) -> Result<Seq<char>, ErrorView> {
    match exchange {
        Ok(input) => command_outcome(device, command, input@),
        Err(e) => Err(e@),
    }
}

/// Whether a reset through the table fails, and with what.
pub open spec fn table_reset(device: DeviceView, exchange: Result<String, Error>) -> Option<
    ErrorView,
> {
    match exchange {
        Ok(input) => reset_failure(device, input@),
        Err(e) => Some(e@),
    }
}

/// Completes a measurement request on the session with identifier
/// `device_id`: `exchange` is what the exchange with the instrument came to,
/// `timestamp` the instant of the reading.
pub fn get_measurement_at(
    device_id: &str,
    exchange: Result<String, Error>,
    timestamp: Option<Timestamp>,
    state: &AppState,
) -> (result: Result<Measurement, String>)
    ensures
        match lookup(state@.sessions, device_id@) {
            Some(i) => reported(
                result,
                "Failed to get measurement: "@,
                table_reading(state@.sessions[i].device, exchange, timestamp),
            ),
            None => result matches Err(text) && text@ == not_found_text(device_id@),
        },
{
    match state.find(device_id) {
        None => Err(not_found(device_id)),
        Some(i) => {
            let ghost device = state@.sessions[i as int].device;
            match exchange {
                Err(e) => Err(failure("Failed to get measurement: ", &e)),
                Ok(input) => {
                    let reading = state.devices[i].device.get_measurement(
                        input.as_str(),
                        timestamp,
                    );
                    assert(agrees(reading, reading_outcome(device, input@, timestamp)));
                    report(reading, "Failed to get measurement: ")
                },
            }
        },
    }
}

/// Completes a measurement request, stamping the reading with the current
/// time.
pub fn get_measurement(device_id: &str, exchange: Result<String, Error>, state: &AppState) -> (result:
    Result<Measurement, String>)
    ensures
        match lookup(state@.sessions, device_id@) {
            Some(i) => exists|instant: Timestamp| #[trigger]
                reported(
                    result,
                    "Failed to get measurement: "@,
                    table_reading(state@.sessions[i].device, exchange, Some(instant)),
                ),
            None => result matches Err(text) && text@ == not_found_text(device_id@),
        },
{
    let instant = crate::clock::now();
    let result = get_measurement_at(device_id, exchange, Some(instant), state);
    proof {
        if let Some(i) = lookup(state@.sessions, device_id@) {
            assert(reported(
                result,
                "Failed to get measurement: "@,
                table_reading(state@.sessions[i].device, exchange, Some(instant)),
            ));
        }
    }
    result
}

/// Completes a raw command on the session with identifier `device_id`.
pub fn send_raw_command(
    device_id: &str,
    command: &str,
    exchange: Result<String, Error>,
    state: &AppState,
) -> (result: Result<String, String>)
    ensures
        match lookup(state@.sessions, device_id@) {
            Some(i) => reported(
                result,
                "Failed to send command: "@,
                table_command(state@.sessions[i].device, command@, exchange),
            ),
            None => result matches Err(text) && text@ == not_found_text(device_id@),
        },
{
    match state.find(device_id) {
        None => Err(not_found(device_id)),
        Some(i) => {
            let ghost device = state@.sessions[i as int].device;
            match exchange {
                Err(e) => Err(failure("Failed to send command: ", &e)),
                Ok(input) => {
                    let answer = state.devices[i].device.send_command(command, input.as_str());
                    assert(agrees(answer, command_outcome(device, command@, input@)));
                    report(answer, "Failed to send command: ")
                },
            }
        },
    }
}

/// Completes a reset of the session with identifier `device_id` at clock
/// reading `now`. The table keeps its sessions; only the session named may
/// change, and only a simulator does: after an exchange that did not fail
/// its generator is restarted at `now`.
pub fn reset_device(
    device_id: &str,
    exchange: Result<String, Error>,
    now: u128,
    state: &mut AppState,
) -> (result: Result<String, String>)
    ensures
        well_formed(final(state)@),
        match lookup(old(state)@.sessions, device_id@) {
            Some(i) => {
                let before = old(state)@.sessions[i].device;
                let after = final(state)@.sessions[i].device;
                let event = TableEvent::Reset { id: device_id@, device: after };
                &&& final(state)@ == with_device(old(state)@, i, after)
                &&& final(state)@ == after_event(old(state)@, event)
                &&& admissible(old(state)@, event)
                &&& after.connected() == before.connected()
                &&& after.device_type() == before.device_type()
                &&& (before is Fluke || !before.connected() || exchange is Err ==> after == before)
                &&& (before is Mock && exchange is Ok ==> after.started_at() == Some(now as nat))
                &&& match table_reset(before, exchange) {
                    None => result matches Ok(text) && text@ == "Device reset successfully"@,
                    Some(e) => result matches Err(text) && text@ == failure_text(
                        "Failed to reset device: "@,
                        e,
                    ),
                }
            },
            None => final(state)@ == old(state)@ && (result matches Err(text) && text@
                == not_found_text(device_id@)),
        },
{
    match state.find(device_id) {
        None => Err(not_found(device_id)),
        Some(i) => {
            let ghost before = state@;
            let input = match exchange {
                Ok(input) => input,
                Err(e) => {
                    assert(before =~= with_device(before, i as int, before.sessions[i as int].device))
                        by {
                        assert(before.sessions =~= before.sessions.update(
                            i as int,
                            before.sessions[i as int],
                        ));
                    }
                    return Err(failure("Failed to reset device: ", &e));
                },
            };
            let mut taken = AppState::new();
            core::mem::swap(state, &mut taken);
            let AppState { devices, next_device_id } = taken;
            let mut devices = devices;
            let mut entry = devices.remove(i);
            let outcome = entry.device.reset(input.as_str(), now);
            let ghost changed = entry@;
            devices.insert(i, entry);
            proof {
                let after = AppState { devices, next_device_id };
                assert(after@.sessions =~= before.sessions.update(i as int, changed));
            }
            *state = AppState { devices, next_device_id };
            match outcome {
                Ok(_) => Ok(String::from_str("Device reset successfully")),
                Err(e) => Err(failure("Failed to reset device: ", &e)),
            }
        },
    }
}

} // verus!
