//! Running emulators: which devices are emulators, how they describe
//! themselves, which ports they use.

use std::collections::HashSet;
use std::path::PathBuf;
use vstd::hash_map::StringHashMap;
use vstd::prelude::*;

use crate::emulator::{Emulator, EmulatorView};
use crate::error::{joined, EmulatorError};
use crate::ini::{self, parse_ini};
use crate::text::{self, parse_u16_of, strip_prefix_of};

verus! {

/// The first port that is tried.
pub const FIRST_GRPC_PORT: u16 = 8554;

/// How long to sleep before the devices are listed again.
pub const POLL_MILLIS: u64 = 500;

/// Whether the identifier is that of an emulator.
pub open spec fn is_emulator(identifier: Seq<char>) -> bool {
    text::starts_with(identifier, "emulator-"@)
}

/// Whether the identifier names the port of an emulator's console.
pub open spec fn names_console(identifier: Seq<char>) -> bool {
    text::strip_prefix(identifier, "emulator-"@) matches Some(digits) && digits.len() > 0
        && text::all_digits(digits) && text::digits_value(digits) <= u16::MAX
}

/// What `ADBEmulatorDevice::new` says of an identifier that it refuses.
pub uninterp spec fn device_error(identifier: Seq<char>) -> Seq<char>;

/// `adb_client::emulator::ADBEmulatorDevice::new` for the local machine: the
/// text of its error, if it has one. It accepts `emulator-` followed by the
/// decimal digits of a 16-bit number and nothing else, and does not connect.
#[verifier::external_body]
fn device_error_of(identifier: &str) -> (res: Option<String>)
    ensures
        match res {
            Some(e) => !names_console(identifier@) && e@ == device_error(identifier@),
            None => names_console(identifier@),
        },
{
    match adb_client::emulator::ADBEmulatorDevice::new(identifier.to_owned(), None) {
        Ok(_) => None,
        Err(e) => Some(e.to_string()),
    }
}

/// The identifiers under which an emulator can be reached.
pub open spec fn usable(identifiers: Seq<Seq<char>>) -> Seq<Seq<char>>
    decreases identifiers.len(),
{
    if identifiers.len() == 0 {
        seq![]
    } else {
        let before = usable(identifiers.drop_last());
        if is_emulator(identifiers.last()) && names_console(identifiers.last()) {
            before.push(identifiers.last())
        } else {
            before
        }
    }
}

/// The identifiers of emulators.
pub open spec fn emulators(identifiers: Seq<Seq<char>>) -> Seq<Seq<char>>
    decreases identifiers.len(),
{
    if identifiers.len() == 0 {
        seq![]
    } else {
        let before = emulators(identifiers.drop_last());
        if is_emulator(identifiers.last()) {
            before.push(identifiers.last())
        } else {
            before
        }
    }
}

/// The devices under which an emulator can be reached. Others are passed over.
pub fn usable_serials(identifiers: &Vec<String>) -> (res: Vec<String>)
    ensures
        text::views(res@) == usable(text::views(identifiers@)),
{
    let mut res: Vec<String> = Vec::new();
    let ghost all = text::views(identifiers@);
    assert(text::views(res@) =~= seq![]);
    for i in 0..identifiers.len()
        invariant
            all == text::views(identifiers@),
            text::views(res@) == usable(all.take(i as int)),
    {
        let identifier = identifiers[i].as_str();
        let ghost before = text::views(res@);
        assert(all.take(i + 1).drop_last() =~= all.take(i as int));
        assert(all.take(i + 1).last() == identifier@);
        if strip_prefix_of(identifier, "emulator-").is_some() {
            if device_error_of(identifier).is_none() {
                res.push(identifier.to_owned());
                assert(text::views(res@) =~= before.push(identifier@));
            }
        }
    }
    assert(all.take(all.len() as int) =~= all);
    res
}

/// Whether `e` is the error that no emulator can be reached under the
/// identifier.
pub open spec fn is_device_error(e: EmulatorError, identifier: Seq<char>) -> bool {
    e matches EmulatorError::IoError(m) && m@ == "Failed to create ADBEmulatorDevice: "@
        + device_error(identifier)
}

/// The error for an emulator that cannot be reached.
pub fn device_failure(e: &str) -> (res: EmulatorError)
    ensures
        res matches EmulatorError::IoError(m) && m@ == "Failed to create ADBEmulatorDevice: "@ + e@,
{
    EmulatorError::IoError(joined("Failed to create ADBEmulatorDevice: ", e))
}

/// Whether `res` has the devices that are emulators, or is the error for the
/// first of them that cannot be reached, where there is one.
pub open spec fn tells_serials(
    identifiers: Seq<String>,
    res: Result<Vec<String>, EmulatorError>,
) -> bool {
    match res {
        Ok(serials) => {
            &&& text::views(serials@) == emulators(text::views(identifiers))
            &&& forall|i: int|
                0 <= i < identifiers.len() && is_emulator((#[trigger] identifiers[i])@)
                    ==> names_console(identifiers[i]@)
        },
        Err(e) => exists|i: int|
            #![trigger identifiers[i]]
            {
                &&& 0 <= i < identifiers.len()
                &&& is_emulator(identifiers[i]@)
                &&& !names_console(identifiers[i]@)
                &&& is_device_error(e, identifiers[i]@)
                &&& forall|j: int|
                    0 <= j < i && is_emulator((#[trigger] identifiers[j])@) ==> names_console(
                        identifiers[j]@,
                    )
            },
    }
}

/// The devices that are emulators. An emulator that cannot be reached is an
/// error: the first one is told.
pub fn emulator_serials(identifiers: &Vec<String>) -> (res: Result<Vec<String>, EmulatorError>)
    ensures
        tells_serials(identifiers@, res),
{
    let mut res: Vec<String> = Vec::new();
    let ghost all = text::views(identifiers@);
    assert(text::views(res@) =~= seq![]);
    for i in 0..identifiers.len()
        invariant
            all == text::views(identifiers@),
            text::views(res@) == emulators(all.take(i as int)),
            forall|j: int|
                0 <= j < i && is_emulator((#[trigger] identifiers@[j])@) ==> names_console(
                    identifiers@[j]@,
                ),
    {
        let identifier = identifiers[i].as_str();
        let ghost before = text::views(res@);
        assert(all.take(i + 1).drop_last() =~= all.take(i as int));
        assert(all.take(i + 1).last() == identifier@);
        if strip_prefix_of(identifier, "emulator-").is_some() {
            match device_error_of(identifier) {
                Some(e) => {
                    let err = device_failure(e.as_str());
                    assert(is_device_error(err, identifiers@[i as int]@));
                    return Err(err);
                },
                None => {},
            }
            res.push(identifier.to_owned());
            assert(text::views(res@) =~= before.push(identifier@));
        }
    }
    assert(all.take(all.len() as int) =~= all);
    Ok(res)
}

/// The error where the devices cannot be listed.
pub fn listing_error(e: &str) -> (res: EmulatorError)
    ensures
        res matches EmulatorError::IoError(m) && m@ == "Failed to list ADB devices: "@ + e@,
{
    EmulatorError::IoError(joined("Failed to list ADB devices: ", e))
}

/// What an emulator's description says.
pub open spec fn description(content: Seq<char>) -> Map<Seq<char>, Seq<char>> {
    ini::ini_map(text::lines(content))
}

/// The gRPC port that a description names, if it names one.
pub open spec fn port_in(metadata: Map<Seq<char>, Seq<char>>) -> Option<u16> {
    if metadata.contains_key("grpc.port"@) {
        text::parse_u16(metadata["grpc.port"@])
    } else {
        None
    }
}

fn port_of(metadata: &StringHashMap<String>) -> (res: Option<u16>)
    ensures
        res == port_in(ini::values(metadata@)),
{
    match metadata.get("grpc.port") {
        Some(value) => parse_u16_of(value.as_str()),
        None => None,
    }
}

/// The ports that the descriptions name.
pub open spec fn used_ports(contents: Seq<Option<String>>) -> Set<u16> {
    Set::new(
        |port: u16|
            exists|i: int|
                0 <= i < contents.len() && ((#[trigger] contents[i]) matches Some(c) && port_in(
                    description(c@),
                ) == Some(port)),
    )
}

/// Whether `res` is the first port from [`FIRST_GRPC_PORT`] on that is not
/// used, or nothing where all of them are used.
pub open spec fn is_first_free(used: Set<u16>, res: Option<u16>) -> bool {
    match res {
        Some(port) => {
            &&& FIRST_GRPC_PORT <= port
            &&& !used.contains(port)
            &&& forall|p: u16| FIRST_GRPC_PORT <= p < port ==> #[trigger] used.contains(p)
        },
        None => forall|p: u16| FIRST_GRPC_PORT <= p ==> #[trigger] used.contains(p),
    }
}

/// Find a free gRPC port: the first one that no emulator uses.
///
/// `contents` are the descriptions of the running emulators, as far as they
/// could be read, or nothing where the devices could not be listed.
pub fn find_free_grpc_port(contents: Option<&Vec<Option<String>>>) -> (res: Option<u16>)
    ensures
        match contents {
            None => res is None,
            Some(c) => is_first_free(used_ports(c@), res),
        },
{
    broadcast use vstd::std_specs::hash::group_hash_axioms;

    let described = match contents {
        Some(described) => described,
        None => return None,
    };
    let mut used: HashSet<u16> = HashSet::new();
    assert(used@ =~= used_ports(described@.take(0)));
    for i in 0..described.len()
        invariant
            used@ == used_ports(described@.take(i as int)),
    {
        let ghost before = described@.take(i as int);
        let ghost after = described@.take(i + 1);
        let ghost old_used = used@;
        assert forall|j: int| 0 <= j < i implies #[trigger] before[j] == after[j] by {}
        assert(after[i as int] == described@[i as int]);
        if let Some(content) = &described[i] {
            if let Some(port) = port_of(&parse_ini(content.as_str())) {
                used.insert(port);
            }
        }
        assert(used@ =~= used_ports(after)) by {
            assert forall|p: u16| used@.contains(p) implies used_ports(after).contains(p) by {
                if old_used.contains(p) {
                    let j = choose|j: int|
                        0 <= j < before.len() && ((#[trigger] before[j]) matches Some(c) && port_in(
                            description(c@),
                        ) == Some(p));
                    assert(after[j] == before[j]);
                } else {
                    assert(after[i as int] is Some);
                }
            }
            assert forall|p: u16| used_ports(after).contains(p) implies used@.contains(p) by {
                let j = choose|j: int|
                    0 <= j < after.len() && ((#[trigger] after[j]) matches Some(c) && port_in(
                        description(c@),
                    ) == Some(p));
                if j < i {
                    assert(before[j] == after[j]);
                    assert(used_ports(before).contains(p));
                }
            }
        }
    }
    assert(described@.take(described@.len() as int) =~= described@);
    let mut port: u16 = FIRST_GRPC_PORT;
    loop
        invariant
            contents == Some(described),
            FIRST_GRPC_PORT <= port,
            used@ == used_ports(described@),
            forall|p: u16|
                FIRST_GRPC_PORT <= p < port ==> #[trigger] used_ports(described@).contains(p),
        decreases u16::MAX - port,
    {
        if !used.contains(&port) {
            return Some(port);
        }
        if port == u16::MAX {
            return None;
        }
        port += 1;
    }
}

/// Where an emulator's description was found, and what it holds, if it could
/// be read.
pub type Description = Option<(PathBuf, String)>;

/// The emulator that is reached under `serial`, if its description names a
/// port.
pub open spec fn described<P>(serial: Seq<char>, found: Description) -> Option<EmulatorView<P>> {
    match found {
        Some((discovery_path, content)) => match port_in(description(content@)) {
            Some(grpc_port) => Some(
                EmulatorView {
                    owned_process: None,
                    serial,
                    grpc_port,
                    discovery_path,
                    metadata: description(content@),
                    issuer: None,
                },
            ),
            None => None,
        },
        None => None,
    }
}

/// The emulators that are reached under the serials.
pub open spec fn all_described<P>(serials: Seq<Seq<char>>, found: Seq<Description>) -> Seq<
    EmulatorView<P>,
>
    decreases serials.len(),
{
    if serials.len() == 0 {
        seq![]
    } else {
        let before = all_described::<P>(serials.drop_last(), found.drop_last());
        match described::<P>(serials.last(), found.last()) {
            Some(emulator) => before.push(emulator),
            None => before,
        }
    }
}

/// What is known of each emulator.
pub open spec fn emulator_views<P>(v: Seq<Emulator<P>>) -> Seq<EmulatorView<P>> {
    v.map_values(|e: Emulator<P>| e@)
}

/// The emulator that is reached under `serial`, if its description names a
/// port.
pub fn describe<P>(serial: String, found: Description) -> (res: Option<Emulator<P>>)
    ensures
        match res {
            Some(emulator) => described::<P>(serial@, found) == Some(emulator@),
            None => described::<P>(serial@, found) is None,
        },
{
    match found {
        Some((discovery_path, content)) => {
            let metadata = parse_ini(content.as_str());
            match port_of(&metadata) {
                Some(port) => Some(Emulator::discovered(serial, port, metadata, discovery_path)),
                None => None,
            }
        },
        None => None,
    }
}

/// The running emulators: those of the devices that describe themselves and
/// name a port, in the order of the devices. `found` has the description of
/// each.
pub fn list_emulators<P>(serials: Vec<String>, found: Vec<Description>) -> (res: Vec<Emulator<P>>)
    requires
        serials@.len() == found@.len(),
    ensures
        emulator_views(res@) == all_described::<P>(text::views(serials@), found@),
    decreases serials@.len(),
{
    let ghost all = text::views(serials@);
    let mut serials = serials;
    let mut found = found;
    match (serials.pop(), found.pop()) {
        (Some(serial), Some(last)) => {
            assert(text::views(serials@) =~= all.drop_last());
            let mut res = list_emulators::<P>(serials, found);
            let ghost before = emulator_views(res@);
            if let Some(emulator) = describe(serial, last) {
                res.push(emulator);
                assert(emulator_views(res@) =~= before.push(emulator@));
            }
            res
        },
        _ => {
            let res: Vec<Emulator<P>> = Vec::new();
            assert(emulator_views(res@) =~= seq![]);
            res
        },
    }
}

/// An emulator that has appeared.
pub struct Discovered {
    pub serial: String,
    pub metadata: StringHashMap<String>,
    pub discovery_path: PathBuf,
}

/// The wait for an emulator that was started on a port to appear.
pub struct EmulatorPoll {
    grpc_port: u16,
    serials: Vec<String>,
    next: usize,
}

/// What the wait is told.
pub enum PollEvent {
    /// It has slept.
    Awake,
    /// The identifiers of the devices, if they could be listed.
    Devices(Option<Vec<String>>),
    /// The description of the device that was to be inspected.
    Inspected(Description),
}

/// What the wait does next.
pub enum PollAction {
    /// Sleep for the poll interval.
    Sleep,
    /// List the devices.
    ListDevices,
    /// Look for the description of the device.
    Inspect(String),
    /// The emulator has appeared.
    Appeared(Discovered),
}

/// Whether the description names the port.
pub open spec fn names_port(found: Description, grpc_port: u16) -> bool {
    found matches Some((_, content)) && port_in(description(content@)) == Some(grpc_port)
}

/// Whether the action is to inspect the first of the devices, or to sleep
/// where there is none.
pub open spec fn inspects_first(action: PollAction, serials: Seq<Seq<char>>) -> bool {
    if serials.len() == 0 {
        action is Sleep
    } else {
        action matches PollAction::Inspect(serial) && serial@ == serials[0]
    }
}

impl EmulatorPoll {
    #[verifier::type_invariant]
    spec fn in_range(self) -> bool {
        self.next <= self.serials@.len()
    }

    /// The port that the emulator was started on.
    pub closed spec fn spec_port(self) -> u16 {
        self.grpc_port
    }

    /// The devices that are left in this round, the one that is being
    /// inspected first.
    pub closed spec fn pending(self) -> Seq<Seq<char>> {
        text::views(self.serials@).skip(self.next as int)
    }

    /// Whether the event can come now.
    pub open spec fn expects(self, event: PollEvent) -> bool {
        event is Inspected <==> self.pending().len() > 0
    }

    /// What the wait does.
    pub open spec fn poll_step(pre: Self, event: PollEvent, post: Self, action: PollAction) -> bool {
        &&& post.spec_port() == pre.spec_port()
        &&& match event {
            PollEvent::Awake => action is ListDevices && post.pending() == pre.pending(),
            PollEvent::Devices(None) => action is Sleep && post.pending() == pre.pending(),
            PollEvent::Devices(Some(identifiers)) => {
                &&& post.pending() == usable(text::views(identifiers@))
                &&& inspects_first(action, post.pending())
            },
            PollEvent::Inspected(found) => if names_port(found, pre.spec_port()) {
                (action, found) matches (PollAction::Appeared(e), Some((path, content))) && {
                    &&& e.serial@ == pre.pending()[0]
                    &&& ini::values(e.metadata@) == description(content@)
                    &&& e.discovery_path == path
                    &&& post.pending() == pre.pending()
                }
            } else {
                &&& post.pending() == pre.pending().drop_first()
                &&& inspects_first(action, post.pending())
            },
        }
    }

    /// A wait for the emulator on `grpc_port`, which starts with a sleep.
    pub fn new(grpc_port: u16) -> (res: EmulatorPoll)
        ensures
            res.spec_port() == grpc_port,
            res.pending() == Seq::<Seq<char>>::empty(),
    {
        let res = EmulatorPoll { grpc_port, serials: Vec::new(), next: 0 };
        assert(res.pending() =~= seq![]);
        res
    }

    fn inspect_next(&self) -> (res: PollAction)
        ensures
            inspects_first(res, self.pending()),
    {
        proof {
            use_type_invariant(self);
        }
        if self.next < self.serials.len() {
            assert(self.pending()[0] == self.serials@[self.next as int]@);
            PollAction::Inspect(self.serials[self.next].clone())
        } else {
            PollAction::Sleep
        }
    }

    /// Poll ADB until the emulator appears and we can read its metadata: one
    /// step
    ///
    /// Every round begins with a sleep. The devices are inspected in turn; the
    /// first whose description names the port is the emulator.
    pub fn poll_for_emulator(&mut self, event: PollEvent) -> (res: PollAction)
        requires
            old(self).expects(event),
        ensures
            EmulatorPoll::poll_step(*old(self), event, *final(self), res),
    {
        proof {
            use_type_invariant(&*self);
        }
        match event {
            PollEvent::Awake => PollAction::ListDevices,
            PollEvent::Devices(None) => PollAction::Sleep,
            PollEvent::Devices(Some(identifiers)) => {
                let serials = usable_serials(&identifiers);
                let grpc_port: u16 = self.grpc_port;
                *self = EmulatorPoll { grpc_port, serials, next: 0 };
                assert(self.pending() =~= text::views(serials@));
                self.inspect_next()
            },
            PollEvent::Inspected(found) => {
                assert(self.pending()[0] == self.serials@[self.next as int]@);
                if let Some((discovery_path, content)) = found {
                    let metadata = parse_ini(content.as_str());
                    if port_of(&metadata) == Some(self.grpc_port) {
                        let serial = self.serials[self.next].clone();
                        return PollAction::Appeared(Discovered { serial, metadata, discovery_path });
                    }
                }
                assert(self.next < self.serials.len());
                self.next = self.next + 1;
                assert(self.pending() =~= old(self).pending().drop_first());
                self.inspect_next()
            },
        }
    }
}

/// A device is used if and only if it is listed and its identifier names the
/// console of an emulator.
pub proof fn law_usable(identifiers: Seq<Seq<char>>, identifier: Seq<char>)
    ensures
        usable(identifiers).contains(identifier) <==> identifiers.contains(identifier)
            && names_console(identifier),
    decreases identifiers.len(),
{
    if identifiers.len() > 0 {
        let before = identifiers.drop_last();
        let last = identifiers.last();
        law_usable(before, identifier);
        if names_console(last) {
            assert(is_emulator(last));
            assert(usable(identifiers)[usable(before).len() as int] == last);
        }
        if usable(identifiers).contains(identifier) && identifier != last {
            let i = usable(identifiers).index_of(identifier);
            assert(usable(before)[i] == identifier);
        }
        if usable(before).contains(identifier) {
            let i = usable(before).index_of(identifier);
            assert(usable(identifiers)[i] == identifier);
        }
        if identifiers.contains(identifier) && identifier != last {
            let i = identifiers.index_of(identifier);
            assert(before[i] == identifier);
        }
        if before.contains(identifier) {
            let i = before.index_of(identifier);
            assert(identifiers[i] == identifier);
        }
        assert(identifiers[identifiers.len() - 1] == last);
    }
}

/// Every emulator that is listed has one of the serials and the port that its
/// own description names, and belongs to somebody else.
pub proof fn law_listed<P>(serials: Seq<Seq<char>>, found: Seq<Description>, k: int)
    requires
        serials.len() == found.len(),
        0 <= k < all_described::<P>(serials, found).len(),
    ensures
        ({
            let e = all_described::<P>(serials, found)[k];
            &&& serials.contains(e.serial)
            &&& port_in(e.metadata) == Some(e.grpc_port)
            &&& e.owned_process is None
            &&& e.issuer is None
        }),
    decreases serials.len(),
{
    let before = all_described::<P>(serials.drop_last(), found.drop_last());
    let e = all_described::<P>(serials, found)[k];
    if k < before.len() {
        law_listed::<P>(serials.drop_last(), found.drop_last(), k);
        let i = serials.drop_last().index_of(e.serial);
        assert(serials[i] == e.serial);
    } else {
        assert(serials[serials.len() - 1] == e.serial);
    }
}

/// The emulator that a wait takes is on the port that it waits for.
pub proof fn law_appeared_on_port(
    pre: EmulatorPoll,
    event: PollEvent,
    post: EmulatorPoll,
    e: Discovered,
)
    requires
        EmulatorPoll::poll_step(pre, event, post, PollAction::Appeared(e)),
    ensures
        port_in(ini::values(e.metadata@)) == Some(pre.spec_port()),
{
}

/// A round in which no description names the port inspects every device once,
/// in order, and then sleeps.
pub proof fn law_round_inspects_all(
    states: Seq<EmulatorPoll>,
    found: Seq<Description>,
    actions: Seq<PollAction>,
)
    requires
        found.len() > 0,
        states.len() == found.len() + 1,
        actions.len() == found.len(),
        states[0].pending().len() == found.len(),
        forall|i: int|
            0 <= i < found.len() ==> EmulatorPoll::poll_step(
                states[i],
                PollEvent::Inspected(#[trigger] found[i]),
                states[i + 1],
                actions[i],
            ),
        forall|i: int| 0 <= i < found.len() ==> !names_port(#[trigger] found[i], states[0].spec_port()),
    ensures
        forall|i: int|
            0 <= i < found.len() - 1 ==> (#[trigger] actions[i] matches PollAction::Inspect(serial)
                && serial@ == states[0].pending()[i + 1]),
        actions.last() is Sleep,
        states.last().pending().len() == 0,
{
    let n = found.len() as int;
    lemma_round(states, found, actions, n);
    assert forall|i: int| 0 <= i < n implies inspects_first(
        #[trigger] actions[i],
        states[0].pending().skip(i + 1),
    ) by {
        lemma_round(states, found, actions, i + 1);
        lemma_round(states, found, actions, i);
        assert(EmulatorPoll::poll_step(
            states[i],
            PollEvent::Inspected(found[i]),
            states[i + 1],
            actions[i],
        ));
        assert(!names_port(found[i], states[0].spec_port()));
    }
    assert(states[0].pending().skip(n).len() == 0);
    assert(inspects_first(actions[n - 1], states[0].pending().skip(n)));
    assert forall|i: int| 0 <= i < n - 1 implies (#[trigger] actions[i] matches PollAction::Inspect(
        serial,
    ) && serial@ == states[0].pending()[i + 1]) by {
        assert(states[0].pending().skip(i + 1)[0] == states[0].pending()[i + 1]);
    }
}

proof fn lemma_round(
    states: Seq<EmulatorPoll>,
    found: Seq<Description>,
    actions: Seq<PollAction>,
    k: int,
)
    requires
        0 <= k <= found.len(),
        states.len() == found.len() + 1,
        actions.len() == found.len(),
        states[0].pending().len() == found.len(),
        forall|i: int|
            0 <= i < found.len() ==> EmulatorPoll::poll_step(
                states[i],
                PollEvent::Inspected(#[trigger] found[i]),
                states[i + 1],
                actions[i],
            ),
        forall|i: int| 0 <= i < found.len() ==> !names_port(#[trigger] found[i], states[0].spec_port()),
    ensures
        states[k].pending() == states[0].pending().skip(k),
        states[k].spec_port() == states[0].spec_port(),
    decreases k,
{
    if k == 0 {
        assert(states[0].pending().skip(0) =~= states[0].pending());
    } else {
        lemma_round(states, found, actions, k - 1);
        assert(!names_port(found[k - 1], states[0].spec_port()));
        assert(states[0].pending().skip(k - 1).drop_first() =~= states[0].pending().skip(k));
    }
}

/// Whether the description could be read and names a gRPC port: a number that
/// fits.
pub open spec fn tells_port(found: Description) -> bool {
    found matches Some((_, content)) && {
        let metadata = ini::ini_map(text::lines(content@));
        metadata.contains_key("grpc.port"@) && text::parse_u16(metadata["grpc.port"@]) is Some
    }
}

/// Whether the emulator is reached under `serial` and is what `found` says of
/// it.
pub open spec fn is_as_found<P>(e: EmulatorView<P>, serial: Seq<char>, found: Description) -> bool {
    &&& e.serial == serial
    &&& found matches Some((path, content)) && e.discovery_path == path && e.metadata
        == ini::ini_map(text::lines(content@))
    &&& e.metadata.contains_key("grpc.port"@)
    &&& text::parse_u16(e.metadata["grpc.port"@]) == Some(e.grpc_port)
    &&& e.owned_process is None
    &&& e.issuer is None
}

proof fn lemma_all_described<P>(serials: Seq<Seq<char>>, found: Seq<Description>) -> (at: Seq<int>)
    requires
        serials.len() == found.len(),
    ensures
        at.len() == all_described::<P>(serials, found).len(),
        forall|k: int| 0 <= k < at.len() ==> 0 <= #[trigger] at[k] < serials.len(),
        forall|k: int, l: int| 0 <= k < l < at.len() ==> #[trigger] at[k] < #[trigger] at[l],
        forall|i: int|
            0 <= i < serials.len() ==> (tells_port(#[trigger] found[i]) <==> at.contains(i)),
        forall|k: int|
            0 <= k < at.len() ==> is_as_found(
                all_described::<P>(serials, found)[k],
                serials[#[trigger] at[k]],
                found[at[k]],
            ),
    decreases serials.len(),
{
    if serials.len() == 0 {
        Seq::empty()
    } else {
        let n = serials.len() - 1;
        let before = lemma_all_described::<P>(serials.drop_last(), found.drop_last());
        let all = all_described::<P>(serials, found);
        let at = if tells_port(found[n]) {
            before.push(n)
        } else {
            before
        };
        assert forall|i: int| 0 <= i < serials.len() implies (tells_port(#[trigger] found[i])
            <==> at.contains(i)) by {
            if i < n {
                assert(found.drop_last()[i] == found[i]);
                if before.contains(i) {
                    let k = before.index_of(i);
                    assert(at[k] == i);
                }
                if at.contains(i) {
                    let k = at.index_of(i);
                    assert(before[k] == i);
                }
            } else {
                if tells_port(found[n]) {
                    assert(at[before.len() as int] == n);
                }
                if at.contains(i) && !tells_port(found[n]) {
                    let k = at.index_of(i);
                    assert(before[k] < n);
                }
            }
        }
        assert forall|k: int| 0 <= k < at.len() implies is_as_found(
            all[k],
            serials[#[trigger] at[k]],
            found[at[k]],
        ) by {
            if k < before.len() {
                assert(before[k] < n);
                assert(is_as_found(
                    all_described::<P>(serials.drop_last(), found.drop_last())[k],
                    serials.drop_last()[before[k]],
                    found.drop_last()[before[k]],
                ));
                assert(serials.drop_last()[before[k]] == serials[at[k]]);
                assert(found.drop_last()[before[k]] == found[at[k]]);
            }
        }
        at
    }
}

/// Every device whose description names a port is listed, and no other: once,
/// in the order of the devices, with its own serial, the port and all else that
/// its own description says. What comes back is which device each of the
/// emulators is.
pub proof fn law_listing_is_complete<P>(
    serials: Vec<String>,
    found: Vec<Description>,
    res: Vec<Emulator<P>>,
) -> (at: Seq<int>)
    requires
        serials@.len() == found@.len(),
        call_ensures(list_emulators::<P>, (serials, found), res),
    ensures
        at.len() == res@.len(),
        forall|k: int| 0 <= k < at.len() ==> 0 <= #[trigger] at[k] < serials@.len(),
        forall|k: int, l: int| 0 <= k < l < at.len() ==> #[trigger] at[k] < #[trigger] at[l],
        forall|i: int|
            0 <= i < found@.len() ==> (tells_port(#[trigger] found@[i]) <==> at.contains(i)),
        forall|k: int|
            0 <= k < at.len() ==> is_as_found(
                res@[k]@,
                serials@[#[trigger] at[k]]@,
                found@[at[k]],
            ),
{
    let at = lemma_all_described::<P>(text::views(serials@), found@);
    assert(emulator_views(res@).len() == res@.len());
    assert forall|k: int| 0 <= k < at.len() implies is_as_found(
        res@[k]@,
        serials@[#[trigger] at[k]]@,
        found@[at[k]],
    ) by {
        assert(emulator_views(res@)[k] == res@[k]@);
        assert(text::views(serials@)[at[k]] == serials@[at[k]]@);
    }
    at
}

/// A device is an emulator that runs if and only if its description can be read
/// and names a port, whatever else it says; it then is what the description
/// says.
pub proof fn law_described<P>(serial: String, found: Description, res: Option<Emulator<P>>)
    requires
        call_ensures(describe::<P>, (serial, found), res),
    ensures
        res is Some <==> tells_port(found),
        res matches Some(e) ==> is_as_found(e@, serial@, found),
{
}

/// The port that is found free is named by none of the descriptions, and every
/// port from 8554 up to it is. There is none if and only if the devices could
/// not be listed or every port from 8554 on is named.
pub proof fn law_free_port_is_the_first<'a>(
    contents: Option<&'a Vec<Option<String>>>,
    res: Option<u16>,
    port: u16,
)
    requires
        call_ensures(find_free_grpc_port, (contents,), res),
    ensures
        contents is None ==> res is None,
        contents matches Some(c) ==> {
            let taken = exists|i: int|
                0 <= i < c@.len() && ((#[trigger] c@[i]) matches Some(content) && {
                    let metadata = ini::ini_map(text::lines(content@));
                    metadata.contains_key("grpc.port"@) && text::parse_u16(metadata["grpc.port"@])
                        == Some(port)
                });
            &&& res == Some(port) ==> port >= 8554 && !taken
            &&& res matches Some(free) ==> (8554 <= port < free ==> taken)
            &&& res is None && port >= 8554 ==> taken
        },
{
    if let Some(c) = contents {
        let used = used_ports(c@);
        assert(used.contains(port) == exists|i: int|
            0 <= i < c@.len() && ((#[trigger] c@[i]) matches Some(content) && {
                let metadata = ini::ini_map(text::lines(content@));
                metadata.contains_key("grpc.port"@) && text::parse_u16(metadata["grpc.port"@])
                    == Some(port)
            })) by {
            if used.contains(port) {
                let i = choose|i: int|
                    0 <= i < c@.len() && ((#[trigger] c@[i]) matches Some(content) && port_in(
                        description(content@),
                    ) == Some(port));
                assert(c@[i] is Some);
            }
            if exists|i: int|
                0 <= i < c@.len() && ((#[trigger] c@[i]) matches Some(content) && {
                    let metadata = ini::ini_map(text::lines(content@));
                    metadata.contains_key("grpc.port"@) && text::parse_u16(metadata["grpc.port"@])
                        == Some(port)
                }) {
                let i = choose|i: int|
                    0 <= i < c@.len() && ((#[trigger] c@[i]) matches Some(content) && {
                        let metadata = ini::ini_map(text::lines(content@));
                        metadata.contains_key("grpc.port"@) && text::parse_u16(
                            metadata["grpc.port"@],
                        ) == Some(port)
                    });
                assert(port_in(description(c@[i]->0@)) == Some(port));
            }
        }
    }
}

/// The devices that are used are those that name the console of an emulator,
/// all of them and in the order in which they are listed.
pub proof fn law_usable_in_order(identifiers: Vec<String>, res: Vec<String>)
    requires
        call_ensures(usable_serials, (&identifiers,), res),
    ensures
        text::views(res@) == text::views(identifiers@).filter(|s: Seq<char>| names_console(s)),
{
    lemma_usable_filter(text::views(identifiers@));
}

proof fn lemma_usable_filter(identifiers: Seq<Seq<char>>)
    ensures
        usable(identifiers) == identifiers.filter(|s: Seq<char>| names_console(s)),
    decreases identifiers.len(),
{
    reveal(Seq::filter);
    if identifiers.len() > 0 {
        lemma_usable_filter(identifiers.drop_last());
    }
}

proof fn lemma_emulators_filter(identifiers: Seq<Seq<char>>)
    ensures
        emulators(identifiers) == identifiers.filter(
            |s: Seq<char>| text::starts_with(s, "emulator-"@),
        ),
    decreases identifiers.len(),
{
    reveal(Seq::filter);
    if identifiers.len() > 0 {
        lemma_emulators_filter(identifiers.drop_last());
    }
}

/// The devices that are emulators are those whose identifier begins with
/// `emulator-`, all of them and in order. They are told if and only if each can
/// be reached; else the first that cannot be is the error.
pub proof fn law_emulator_serials(
    identifiers: Vec<String>,
    res: Result<Vec<String>, EmulatorError>,
    i: int,
)
    requires
        call_ensures(emulator_serials, (&identifiers,), res),
        0 <= i < identifiers@.len(),
    ensures
        res matches Ok(serials) ==> text::views(serials@) == text::views(identifiers@).filter(
            |s: Seq<char>| text::starts_with(s, "emulator-"@),
        ),
        res is Ok && text::starts_with(identifiers@[i]@, "emulator-"@) ==> names_console(
            identifiers@[i]@,
        ),
        text::starts_with(identifiers@[i]@, "emulator-"@) && !names_console(identifiers@[i]@) && (
        forall|j: int|
            0 <= j < i && text::starts_with((#[trigger] identifiers@[j])@, "emulator-"@)
                ==> names_console(identifiers@[j]@)) ==> (res matches Err(EmulatorError::IoError(m))
            && m@ == "Failed to create ADBEmulatorDevice: "@ + device_error(identifiers@[i]@)),
        res is Err ==> exists|k: int|
            0 <= k < identifiers@.len() && text::starts_with(
                (#[trigger] identifiers@[k])@,
                "emulator-"@,
            ) && !names_console(identifiers@[k]@),
{
    lemma_emulators_filter(text::views(identifiers@));
    assert(tells_serials(identifiers@, res));
    if res is Err {
        let k = choose|k: int|
            #![trigger identifiers@[k]]
            {
                &&& 0 <= k < identifiers@.len()
                &&& is_emulator(identifiers@[k]@)
                &&& !names_console(identifiers@[k]@)
                &&& is_device_error(res->Err_0, identifiers@[k]@)
                &&& forall|j: int|
                    0 <= j < k && is_emulator((#[trigger] identifiers@[j])@) ==> names_console(
                        identifiers@[j]@,
                    )
            };
        if i < k {
            assert(is_emulator(identifiers@[i]@) ==> names_console(identifiers@[i]@));
        }
        assert(text::starts_with(identifiers@[k]@, "emulator-"@));
    }
}

/// A wait goes from a sleep to a list of the devices, and from a list that
/// cannot be had to a sleep. Of a list it inspects the first device that can be
/// used, and sleeps where there is none.
pub proof fn law_poll_lists_devices(
    pre: EmulatorPoll,
    event: PollEvent,
    post: EmulatorPoll,
    action: PollAction,
)
    requires
        EmulatorPoll::poll_step(pre, event, post, action),
    ensures
        POLL_MILLIS == 500,
        post.spec_port() == pre.spec_port(),
        event is Awake ==> action is ListDevices,
        event matches PollEvent::Devices(None) ==> action is Sleep,
        event matches PollEvent::Devices(Some(identifiers)) ==> {
            let usable = text::views(identifiers@).filter(|s: Seq<char>| names_console(s));
            &&& post.pending() == usable
            &&& usable.len() == 0 ==> action is Sleep
            &&& usable.len() > 0 ==> (action matches PollAction::Inspect(serial) && serial@
                == usable[0])
        },
{
    if let PollEvent::Devices(Some(identifiers)) = event {
        lemma_usable_filter(text::views(identifiers@));
    }
}

/// The device that was inspected is the emulator if and only if its description
/// names the port that is waited for, whatever else it says; it is then taken
/// with its serial and its description. Else the next device is inspected, or
/// the wait sleeps after the last.
pub proof fn law_poll_takes_the_port(
    pre: EmulatorPoll,
    found: Description,
    post: EmulatorPoll,
    action: PollAction,
)
    requires
        pre.pending().len() > 0,
        EmulatorPoll::poll_step(pre, PollEvent::Inspected(found), post, action),
    ensures
        post.spec_port() == pre.spec_port(),
        action is Appeared <==> (found matches Some((_, content)) && {
            let metadata = ini::ini_map(text::lines(content@));
            metadata.contains_key("grpc.port"@) && text::parse_u16(metadata["grpc.port"@]) == Some(
                pre.spec_port(),
            )
        }),
        action matches PollAction::Appeared(e) ==> {
            &&& e.serial@ == pre.pending()[0]
            &&& found matches Some((path, content)) && e.discovery_path == path && ini::values(
                e.metadata@,
            ) == ini::ini_map(text::lines(content@))
        },
        !(action is Appeared) ==> {
            &&& post.pending() == pre.pending().skip(1)
            &&& pre.pending().len() == 1 ==> action is Sleep
            &&& pre.pending().len() > 1 ==> (action matches PollAction::Inspect(serial) && serial@
                == pre.pending()[1])
        },
{
    assert(pre.pending().drop_first() =~= pre.pending().skip(1));
}

/// What cannot be listed or reached is said with its reason.
pub proof fn law_device_messages(why: &str, listing: EmulatorError, device: EmulatorError)
    requires
        call_ensures(listing_error, (why,), listing),
        call_ensures(device_failure, (why,), device),
    ensures
        listing matches EmulatorError::IoError(m) && m@ == "Failed to list ADB devices: "@ + why@,
        device matches EmulatorError::IoError(m) && m@ == "Failed to create ADBEmulatorDevice: "@
            + why@,
{
}

/// A wait is for the port that it was asked for, and has nothing to inspect yet.
pub proof fn law_wait_begins(port: u16, poll: EmulatorPoll)
    requires
        call_ensures(EmulatorPoll::new, (port,), poll),
    ensures
        poll.spec_port() == port,
        poll.pending().len() == 0,
{
}

} // verus!
