//! Finding a dongle that answers, and keeping hold of it.
use vstd::prelude::*;

use crate::hid::HeadsetState;
use crate::number::{decimal, decimal_text, hex4, hex4_text};
use crate::text::{joined, text_of};
use crate::usb_id::{CLOUD_III_S_PRODUCT_IDS, HYPERX_VENDOR_ID};

verus! {

/// A HID device of the system.
#[derive(Debug)]
pub struct DeviceEntry {
    pub vendor_id: u16,
    pub product_id: u16,
    /// Where the system finds the device.
    pub path: Vec<u8>,
    /// The same for people to read.
    pub path_text: String,
}

/// A HID device in the model.
pub struct DeviceView {
    pub vendor_id: u16,
    pub product_id: u16,
    pub path: Seq<u8>,
    pub path_text: Seq<char>,
}

impl View for DeviceEntry {
    type V = DeviceView;

    open spec fn view(&self) -> DeviceView {
        DeviceView {
            vendor_id: self.vendor_id,
            product_id: self.product_id,
            path: self.path@,
            path_text: self.path_text@,
        }
    }
}

/// The devices of a list in the model.
pub open spec fn device_views(devices: Seq<DeviceEntry>) -> Seq<DeviceView> {
    Seq::new(devices.len(), |i: int| devices[i]@)
}

/// The strings of a list in the model.
pub open spec fn string_views(strings: Seq<String>) -> Seq<Seq<char>> {
    Seq::new(strings.len(), |i: int| strings[i]@)
}

/// Whether a device is a dongle of the Cloud III S.
pub open spec fn is_dongle(device: DeviceView) -> bool {
    device.vendor_id == HYPERX_VENDOR_ID && (device.product_id == CLOUD_III_S_PRODUCT_IDS@[0]
        || device.product_id == CLOUD_III_S_PRODUCT_IDS@[1])
}

/// Whether the device at `i` is worth opening: a dongle whose path no dongle before it has.
pub open spec fn is_candidate(devices: Seq<DeviceView>, i: int) -> bool {
    is_dongle(devices[i]) && forall|j: int|
        0 <= j < i && is_dongle(#[trigger] devices[j]) ==> devices[j].path != devices[i].path
}

/// The places of the devices worth opening among the first `n`, in order.
pub open spec fn candidates(devices: Seq<DeviceView>, n: nat) -> Seq<usize>
    decreases n,
{
    if n == 0 {
        seq![]
    } else if is_candidate(devices, n - 1) {
        candidates(devices, (n - 1) as nat).push((n - 1) as usize)
    } else {
        candidates(devices, (n - 1) as nat)
    }
}

/// Device numbers and path, for messages.
pub open spec fn device_label(device: DeviceView) -> Seq<char> {
    hex4_text(device.vendor_id) + ":"@ + hex4_text(device.product_id) + " "@ + device.path_text
}

/// Whether `device` is a dongle of the Cloud III S.
fn matches_dongle(device: &DeviceEntry) -> (r: bool)
    ensures
        r == is_dongle(device@),
{
    device.vendor_id == HYPERX_VENDOR_ID && (device.product_id == CLOUD_III_S_PRODUCT_IDS[0]
        || device.product_id == CLOUD_III_S_PRODUCT_IDS[1])
}

/// Device numbers and path, for messages.
fn label(device: &DeviceEntry) -> (text: String)
    ensures
        text@ == device_label(device@),
{
    hex4(device.vendor_id).concat(":").concat(hex4(device.product_id).as_str()).concat(" ").concat(
        device.path_text.as_str(),
    )
}

/// Whether two paths are the same.
fn same_path(left: &Vec<u8>, right: &Vec<u8>) -> (r: bool)
    ensures
        r == (left@ == right@),
{
    if left.len() != right.len() {
        return false;
    }
    for i in 0..left.len()
        invariant
            left@.len() == right@.len(),
            forall|k: int| 0 <= k < i ==> left@[k] == right@[k],
    {
        if left[i] != right[i] {
            return false;
        }
    }
    assert(left@ =~= right@);
    true
}

/// Whether a dongle before `i` has the path of the device at `i`.
fn path_seen(devices: &Vec<DeviceEntry>, i: usize) -> (r: bool)
    requires
        i < devices@.len(),
    ensures
        r == exists|j: int|
            0 <= j < i && is_dongle(#[trigger] device_views(devices@)[j]) && device_views(
                devices@,
            )[j].path == device_views(devices@)[i as int].path,
{
    let ghost views = device_views(devices@);
    for j in 0..i
        invariant
            i < devices@.len(),
            views == device_views(devices@),
            forall|k: int|
                0 <= k < j && is_dongle(#[trigger] views[k]) ==> views[k].path
                    != views[i as int].path,
    {
        if matches_dongle(&devices[j]) && same_path(&devices[j].path, &devices[i].path) {
            assert(views[j as int].path == views[i as int].path);
            return true;
        }
    }
    false
}

/// The places of the devices worth opening, in order: dongles of the Cloud III S, each path once.
pub fn dongle_candidates(devices: &Vec<DeviceEntry>) -> (r: Vec<usize>)
    ensures
        r@ == candidates(device_views(devices@), devices@.len()),
{
    let mut r: Vec<usize> = Vec::new();
    for i in 0..devices.len()
        invariant
            r@ == candidates(device_views(devices@), i as nat),
    {
        assert(device_views(devices@)[i as int] == devices@[i as int]@);
        if matches_dongle(&devices[i]) && !path_seen(devices, i) {
            r.push(i);
        }
    }
    r
}

/// Why no dongle answered.
#[derive(Debug)]
pub enum ScanError {
    /// The list of devices cannot be had.
    Init(String),
    /// There is no dongle.
    NotFound,
    /// So many were tried, and this is what each of them came to.
    NoneResponded { found: usize, failures: Vec<String> },
}

/// Why no dongle answered, in the model.
pub enum ScanErrorView {
    Init(Seq<char>),
    NotFound,
    NoneResponded { found: nat, failures: Seq<Seq<char>> },
}

impl View for ScanError {
    type V = ScanErrorView;

    open spec fn view(&self) -> ScanErrorView {
        match self {
            ScanError::Init(cause) => ScanErrorView::Init(cause@),
            ScanError::NotFound => ScanErrorView::NotFound,
            ScanError::NoneResponded { found, failures } => ScanErrorView::NoneResponded {
                found: *found as nat,
                failures: string_views(failures@),
            },
        }
    }
}

/// The message of an error.
pub open spec fn scan_error_text(error: ScanErrorView) -> Seq<char> {
    match error {
        ScanErrorView::Init(cause) => "failed to initialize hidapi: "@ + cause,
        ScanErrorView::NotFound =>
            "HyperX Cloud III S dongle not found (expected 03f0:06be or 03f0:02cc)"@,
        ScanErrorView::NoneResponded { found, failures } => "found "@ + decimal_text(found)
            + " matching HID path(s), but none responded: "@ + joined(failures, "; "@),
    }
}

/// `parts` in order, with one `separator` between neighbours.
fn join(parts: &Vec<String>, separator: &str) -> (text: String)
    ensures
        text@ == joined(string_views(parts@), separator@),
{
    let mut text = String::new();
    let ghost views = string_views(parts@);
    assert(text@ =~= joined(views.take(0), separator@));
    for i in 0..parts.len()
        invariant
            views == string_views(parts@),
            text@ == joined(views.take(i as int), separator@),
    {
        assert(views.take(i + 1).drop_last() =~= views.take(i as int));
        assert(views.take(i + 1).last() == parts@[i as int]@);
        if i > 0 {
            text.append(separator);
        }
        text.append(parts[i].as_str());
        assert(text@ =~= joined(views.take(i + 1), separator@));
    }
    assert(views.take(views.len() as int) =~= views);
    text
}

impl ScanError {
    /// The message for the log.
    pub fn message(&self) -> (text: String)
        ensures
            text@ == scan_error_text(self@),
    {
        match self {
            ScanError::Init(cause) => {
                "failed to initialize hidapi: ".to_owned().concat(cause.as_str())
            },
            ScanError::NotFound => {
                "HyperX Cloud III S dongle not found (expected 03f0:06be or 03f0:02cc)".to_owned()
            },
            ScanError::NoneResponded { found, failures } => {
                "found ".to_owned().concat(decimal(*found as u64).as_str()).concat(
                    " matching HID path(s), but none responded: ",
                ).concat(join(failures, "; ").as_str())
            },
        }
    }
}

/// What came of trying a device.
#[derive(Debug)]
pub enum ScanEvent {
    /// It cannot be opened.
    OpenFailed(String),
    /// It was opened, but gave no answer.
    QueryFailed(String),
    /// It told the state of the headset.
    Answered(HeadsetState),
}

/// What came of trying a device, in the model.
pub enum ScanEventView {
    OpenFailed(Seq<char>),
    QueryFailed(Seq<char>),
    Answered(HeadsetState),
}

impl View for ScanEvent {
    type V = ScanEventView;

    open spec fn view(&self) -> ScanEventView {
        match self {
            ScanEvent::OpenFailed(cause) => ScanEventView::OpenFailed(cause@),
            ScanEvent::QueryFailed(cause) => ScanEventView::QueryFailed(cause@),
            ScanEvent::Answered(state) => ScanEventView::Answered(*state),
        }
    }
}

/// What to do next.
#[derive(Debug)]
pub enum ScanAction {
    /// Open the device at that place and ask it.
    Try(usize),
    /// The search is over; on success the device that was opened last is the one.
    Finish(Result<HeadsetState, ScanError>),
}

/// What to do next, in the model.
pub enum ScanActionView {
    Try(usize),
    Finish(Result<HeadsetState, ScanErrorView>),
}

impl View for ScanAction {
    type V = ScanActionView;

    open spec fn view(&self) -> ScanActionView {
        match self {
            ScanAction::Try(place) => ScanActionView::Try(*place),
            ScanAction::Finish(Ok(state)) => ScanActionView::Finish(Ok(*state)),
            ScanAction::Finish(Err(error)) => ScanActionView::Finish(Err(error@)),
        }
    }
}

/// A search in the model: what came of the candidates so far, and whether one of them answered.
pub struct ScanView {
    pub devices: Seq<DeviceView>,
    pub failures: Seq<Seq<char>>,
    pub answered: bool,
}

/// The places to try, in order.
pub open spec fn scan_queue(scan: ScanView) -> Seq<usize> {
    candidates(scan.devices, scan.devices.len())
}

/// Whether a device is being tried.
pub open spec fn scan_is_trying(scan: ScanView) -> bool {
    !scan.answered && scan.failures.len() < scan_queue(scan).len()
}

/// The device that is being tried.
pub open spec fn scan_current(scan: ScanView) -> DeviceView {
    scan.devices[scan_queue(scan)[scan.failures.len() as int] as int]
}

/// The next candidate to try, or the end where none is left.
pub open spec fn scan_next(scan: ScanView) -> ScanActionView {
    let queue = scan_queue(scan);
    if scan.failures.len() < queue.len() {
        ScanActionView::Try(queue[scan.failures.len() as int])
    } else if queue.len() == 0 {
        ScanActionView::Finish(Err(ScanErrorView::NotFound))
    } else {
        ScanActionView::Finish(
            Err(ScanErrorView::NoneResponded { found: queue.len(), failures: scan.failures }),
        )
    }
}

/// The course of a search: the candidates are tried in order until one of them answers.
pub open spec fn scan_step(scan: ScanView, event: ScanEventView) -> (ScanView, ScanActionView) {
    let label = device_label(scan_current(scan));
    match event {
        ScanEventView::Answered(state) => (
            ScanView { answered: true, ..scan },
            ScanActionView::Finish(Ok(state)),
        ),
        ScanEventView::OpenFailed(cause) => {
            let after = ScanView {
                failures: scan.failures.push(label + ": open failed: "@ + cause),
                ..scan
            };
            (after, scan_next(after))
        },
        ScanEventView::QueryFailed(cause) => {
            let after = ScanView {
                failures: scan.failures.push(label + ": no valid response: "@ + cause),
                ..scan
            };
            (after, scan_next(after))
        },
    }
}

/// A search for a dongle that answers.
#[derive(Debug)]
pub struct Scan {
    devices: Vec<DeviceEntry>,
    queue: Vec<usize>,
    failures: Vec<String>,
    answered: bool,
}

impl View for Scan {
    type V = ScanView;

    closed spec fn view(&self) -> ScanView {
        ScanView {
            devices: device_views(self.devices@),
            failures: string_views(self.failures@),
            answered: self.answered,
        }
    }
}

/// Every place in the queue is one of a device.
proof fn lemma_candidates_in_range(devices: Seq<DeviceView>, n: nat)
    requires
        n <= devices.len() <= usize::MAX,
    ensures
        candidates(devices, n).len() <= n,
        forall|i: int| 0 <= i < candidates(devices, n).len() ==> #[trigger] candidates(devices, n)[i]
            < n,
    decreases n,
{
    if n > 0 {
        lemma_candidates_in_range(devices, (n - 1) as nat);
    }
}

impl Scan {
    /// The queue is that of the devices, and no more devices have failed than stand in it.
    #[verifier::type_invariant]
    spec fn is_valid(self) -> bool {
        &&& self.queue@ == scan_queue(self@)
        &&& self.failures@.len() <= self.queue@.len()
        &&& forall|i: int| 0 <= i < self.queue@.len() ==> #[trigger] self.queue@[i]
            < self.devices@.len()
    }

    /// Starts a search among all HID devices of the system.
    pub fn begin(devices: Vec<DeviceEntry>) -> (r: (Self, ScanAction))
        ensures
            r.0@ == (ScanView {
                devices: device_views(devices@),
                failures: seq![],
                answered: false,
            }),
            r.1@ == scan_next(r.0@),
    {
        let queue = dongle_candidates(&devices);
        let length: usize = devices.len();
        proof {
            lemma_candidates_in_range(device_views(devices@), length as nat);
        }
        let scan = Scan { devices, queue, failures: Vec::new(), answered: false };
        assert(scan@.failures =~= seq![]);
        let action = scan.next();
        (scan, action)
    }

    /// Whether a device is being tried.
    pub fn is_trying(&self) -> (r: bool)
        ensures
            r == scan_is_trying(self@),
    {
        proof {
            use_type_invariant(self);
        }
        !self.answered && self.failures.len() < self.queue.len()
    }

    /// The next candidate to try, or the end where none is left.
    fn next(&self) -> (action: ScanAction)
        ensures
            action@ == scan_next(self@),
    {
        proof {
            use_type_invariant(self);
        }
        if self.failures.len() < self.queue.len() {
            ScanAction::Try(self.queue[self.failures.len()])
        } else if self.queue.len() == 0 {
            ScanAction::Finish(Err(ScanError::NotFound))
        } else {
            ScanAction::Finish(
                Err(
                    ScanError::NoneResponded {
                        found: self.queue.len(),
                        failures: clone_strings(&self.failures),
                    },
                ),
            )
        }
    }

    /// Takes what came of trying the last device and says what to do next.
    pub fn step(self, event: ScanEvent) -> (r: (Self, ScanAction))
        requires
            scan_is_trying(self@),
        ensures
            (r.0@, r.1@) == scan_step(self@, event@),
    {
        proof {
            use_type_invariant(&self);
        }
        let ghost before = self@;
        let Scan { devices, queue, failures, answered } = self;
        let mut failures = failures;
        let ghost old_failures = failures@;
        let text = label(&devices[queue[failures.len()]]);
        match event {
            ScanEvent::Answered(state) => {
                let scan = Scan { devices, queue, failures, answered: true };
                (scan, ScanAction::Finish(Ok(state)))
            },
            ScanEvent::OpenFailed(cause) => {
                failures.push(text.concat(": open failed: ").concat(cause.as_str()));
                assert(string_views(failures@) =~= string_views(old_failures).push(
                    failures@.last()@,
                ));
                let scan = Scan { devices, queue, failures, answered };
                let action = scan.next();
                (scan, action)
            },
            ScanEvent::QueryFailed(cause) => {
                failures.push(text.concat(": no valid response: ").concat(cause.as_str()));
                assert(string_views(failures@) =~= string_views(old_failures).push(
                    failures@.last()@,
                ));
                let scan = Scan { devices, queue, failures, answered };
                let action = scan.next();
                (scan, action)
            },
        }
    }
}

/// A copy of a list of strings.
fn clone_strings(strings: &Vec<String>) -> (r: Vec<String>)
    ensures
        string_views(r@) == string_views(strings@),
{
    let mut r: Vec<String> = Vec::new();
    for i in 0..strings.len()
        invariant
            r@.len() == i,
            forall|k: int| 0 <= k < i ==> (#[trigger] r@[k])@ == strings@[k]@,
    {
        r.push(strings[i].clone());
    }
    assert(string_views(r@) =~= string_views(strings@));
    r
}

/// How far a probe has come.
#[derive(Debug)]
pub enum ProbePhase {
    /// Nothing is asked.
    Idle,
    /// The device in hand is asked.
    Querying,
    /// A device is searched for; the message says why the one in hand was given up.
    Opening { lost: Option<String> },
}

/// How far a probe has come, in the model.
pub enum ProbePhaseView {
    Idle,
    Querying,
    Opening { lost: Option<Seq<char>> },
}

impl View for ProbePhase {
    type V = ProbePhaseView;

    open spec fn view(&self) -> ProbePhaseView {
        match self {
            ProbePhase::Idle => ProbePhaseView::Idle,
            ProbePhase::Querying => ProbePhaseView::Querying,
            ProbePhase::Opening { lost } => ProbePhaseView::Opening { lost: text_of(*lost) },
        }
    }
}

/// What came of the last step.
#[derive(Debug)]
pub enum ProbeEvent {
    /// The state of the headset is wanted.
    Begin,
    /// The device in hand told the state, or why it did not.
    Queried(Result<HeadsetState, String>),
    /// The search found a device that told the state, or came to nothing.
    Opened(Result<HeadsetState, String>),
}

/// What came of the last step, in the model.
pub enum ProbeEventView {
    Begin,
    Queried(Result<HeadsetState, Seq<char>>),
    Opened(Result<HeadsetState, Seq<char>>),
}

/// An outcome in the model.
pub open spec fn outcome_of(r: Result<HeadsetState, String>) -> Result<HeadsetState, Seq<char>> {
    match r {
        Ok(state) => Ok(state),
        Err(message) => Err(message@),
    }
}

impl View for ProbeEvent {
    type V = ProbeEventView;

    open spec fn view(&self) -> ProbeEventView {
        match self {
            ProbeEvent::Begin => ProbeEventView::Begin,
            ProbeEvent::Queried(r) => ProbeEventView::Queried(outcome_of(*r)),
            ProbeEvent::Opened(r) => ProbeEventView::Opened(outcome_of(*r)),
        }
    }
}

/// What to do next.
#[derive(Debug)]
pub enum ProbeAction {
    /// Ask the device in hand.
    Query,
    /// Let go of the device in hand, if there is one, and search for one that answers.
    Open,
    /// The state of the headset, or why it is unknown.
    Finish(Result<HeadsetState, String>),
}

/// What to do next, in the model.
pub enum ProbeActionView {
    Query,
    Open,
    Finish(Result<HeadsetState, Seq<char>>),
}

impl View for ProbeAction {
    type V = ProbeActionView;

    open spec fn view(&self) -> ProbeActionView {
        match self {
            ProbeAction::Query => ProbeActionView::Query,
            ProbeAction::Open => ProbeActionView::Open,
            ProbeAction::Finish(r) => ProbeActionView::Finish(outcome_of(*r)),
        }
    }
}

/// A probe in the model.
pub struct ProbeView {
    /// Whether a device is in hand.
    pub has_device: bool,
    pub phase: ProbePhaseView,
}

/// Whether an event can come of what was done in that phase.
pub open spec fn probe_expects(phase: ProbePhaseView, event: ProbeEventView) -> bool {
    match event {
        ProbeEventView::Begin => phase is Idle,
        ProbeEventView::Queried(_) => phase is Querying,
        ProbeEventView::Opened(_) => phase is Opening,
    }
}

/// The course of a probe: the device in hand is asked; where there is none, or it does not answer,
/// one that does is searched for.
pub open spec fn probe_step(probe: ProbeView, event: ProbeEventView) -> (
    ProbeView,
    ProbeActionView,
) {
    match event {
        ProbeEventView::Begin => if probe.has_device {
            (
                ProbeView { has_device: true, phase: ProbePhaseView::Querying },
                ProbeActionView::Query,
            )
        } else {
            (
                ProbeView { has_device: false, phase: ProbePhaseView::Opening { lost: None } },
                ProbeActionView::Open,
            )
        },
        ProbeEventView::Queried(Ok(state)) => (
            ProbeView { has_device: true, phase: ProbePhaseView::Idle },
            ProbeActionView::Finish(Ok(state)),
        ),
        ProbeEventView::Queried(Err(message)) => (
            ProbeView {
                has_device: false,
                phase: ProbePhaseView::Opening { lost: Some(message) },
            },
            ProbeActionView::Open,
        ),
        ProbeEventView::Opened(Ok(state)) => (
            ProbeView { has_device: true, phase: ProbePhaseView::Idle },
            ProbeActionView::Finish(Ok(state)),
        ),
        ProbeEventView::Opened(Err(message)) => (
            ProbeView { has_device: false, phase: ProbePhaseView::Idle },
            ProbeActionView::Finish(
                Err(
                    match probe.phase->lost {
                        Some(lost) => "lost HyperX HID connection: "@ + lost
                            + "; reconnect failed: "@ + message,
                        None => message,
                    },
                ),
            ),
        ),
    }
}

/// Asks for the state of the headset and keeps the device that answered.
#[derive(Debug)]
pub struct HeadsetProbe {
    has_device: bool,
    phase: ProbePhase,
}

impl View for HeadsetProbe {
    type V = ProbeView;

    closed spec fn view(&self) -> ProbeView {
        ProbeView { has_device: self.has_device, phase: self.phase@ }
    }
}

impl Default for HeadsetProbe {
    /// A probe with no device in hand.
    fn default() -> (r: Self)
        ensures
            r@ == (ProbeView { has_device: false, phase: ProbePhaseView::Idle }),
    {
        HeadsetProbe { has_device: false, phase: ProbePhase::Idle }
    }
}

impl HeadsetProbe {
    /// Whether `event` can come of what was done last.
    pub fn expects(&self, event: &ProbeEvent) -> (r: bool)
        ensures
            r == probe_expects(self@.phase, event@),
    {
        match (&self.phase, event) {
            (ProbePhase::Idle, ProbeEvent::Begin) => true,
            (ProbePhase::Querying, ProbeEvent::Queried(_)) => true,
            (ProbePhase::Opening { .. }, ProbeEvent::Opened(_)) => true,
            _ => false,
        }
    }

    /// Takes what came of the last step and says what to do next.
    pub fn step(&mut self, event: ProbeEvent) -> (action: ProbeAction)
        requires
            probe_expects(old(self)@.phase, event@),
        ensures
            (final(self)@, action@) == probe_step(old(self)@, event@),
    {
        match event {
            ProbeEvent::Begin => {
                if self.has_device {
                    self.phase = ProbePhase::Querying;
                    ProbeAction::Query
                } else {
                    self.phase = ProbePhase::Opening { lost: None };
                    ProbeAction::Open
                }
            },
            ProbeEvent::Queried(Ok(state)) => {
                self.has_device = true;
                self.phase = ProbePhase::Idle;
                ProbeAction::Finish(Ok(state))
            },
            ProbeEvent::Queried(Err(message)) => {
                self.has_device = false;
                self.phase = ProbePhase::Opening { lost: Some(message) };
                ProbeAction::Open
            },
            ProbeEvent::Opened(Ok(state)) => {
                self.has_device = true;
                self.phase = ProbePhase::Idle;
                ProbeAction::Finish(Ok(state))
            },
            ProbeEvent::Opened(Err(message)) => {
                let message = match &self.phase {
                    ProbePhase::Opening { lost: Some(lost) } => {
                        "lost HyperX HID connection: ".to_owned().concat(lost.as_str()).concat(
                            "; reconnect failed: ",
                        ).concat(message.as_str())
                    },
                    _ => message,
                };
                self.has_device = false;
                self.phase = ProbePhase::Idle;
                ProbeAction::Finish(Err(message))
            },
        }
    }
}

} // verus!
