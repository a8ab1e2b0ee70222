//! Startup: the steps that bring the server up, in the order in which they
//! must happen, and what is said when one of them fails.

use vstd::prelude::*;
use crate::config::{Config, ConfigView};
use crate::text::{decimal_text, push_decimal};

verus! {

/// Where the server listens.
#[derive(Debug, Clone, Copy, PartialEq, Eq)]
pub enum Address {
    /// Every IPv4 address of the machine, `0.0.0.0`, at this port.
    V4Any(u16),
    /// The IPv6 loopback address, `::1`, at this port.
    V6Loopback(u16),
}

impl Address {
    /// The port of the address.
    pub open spec fn port(self) -> u16 {
        match self {
            Address::V4Any(port) => port,
            Address::V6Loopback(port) => port,
        }
    }

    /// The address as it is written: host, colon, port.
    pub open spec fn text(self) -> Seq<char> {
        match self {
            Address::V4Any(port) => "0.0.0.0:"@ + decimal_text(port as nat),
            Address::V6Loopback(port) => "[::1]:"@ + decimal_text(port as nat),
        }
    }

    pub fn to_text(&self) -> (out: String)
        ensures
            out@ == self.text(),
    {
        match self {
            Address::V4Any(port) => {
                let mut out = "0.0.0.0:".to_owned();
                push_decimal(&mut out, *port as u64);
                out
            },
            Address::V6Loopback(port) => {
                let mut out = "[::1]:".to_owned();
                push_decimal(&mut out, *port as u64);
                out
            },
        }
    }
}

/// One thing to do while starting up.
#[derive(Debug, PartialEq, Eq)]
pub enum Step {
    /// Print this line.
    Announce(String),
    /// Detach from the terminal and go on in the background.
    Daemonize,
    /// Make this directory the working directory.
    ChangeDir(String),
    /// Confine the process to this directory.
    Chroot(String),
    /// Open the listening socket.
    Bind(Address),
    /// Accept requests with this many workers, all taking from the one
    /// listener. One worker means the calling thread itself.
    Serve(usize),
}

/// What a `Step` holds, as the contracts speak of it.
pub enum StepView {
    Announce(Seq<char>),
    Daemonize,
    ChangeDir(Seq<char>),
    Chroot(Seq<char>),
    Bind(Address),
    Serve(nat),
}

impl View for Step {
    type V = StepView;

    open spec fn view(&self) -> StepView {
        match self {
            Step::Announce(line) => StepView::Announce(line@),
            Step::Daemonize => StepView::Daemonize,
            Step::ChangeDir(dir) => StepView::ChangeDir(dir@),
            Step::Chroot(dir) => StepView::Chroot(dir@),
            Step::Bind(address) => StepView::Bind(*address),
            Step::Serve(workers) => StepView::Serve(*workers as nat),
        }
    }
}

impl Step {
    /// A copy of this step.
    pub fn copy(&self) -> (out: Step)
        ensures
            out@ == self@,
    {
        match self {
            Step::Announce(line) => Step::Announce(line.clone()),
            Step::Daemonize => Step::Daemonize,
            Step::ChangeDir(dir) => Step::ChangeDir(dir.clone()),
            Step::Chroot(dir) => Step::Chroot(dir.clone()),
            Step::Bind(address) => Step::Bind(*address),
            Step::Serve(workers) => Step::Serve(*workers),
        }
    }
}

/// The views of a sequence of steps.
pub open spec fn step_views(steps: Seq<Step>) -> Seq<StepView> {
    steps.map_values(|s: Step| s@)
}

/// The address that the configuration asks for: the configured port, on
/// the IPv6 loopback address or on every IPv4 address.
pub open spec fn listen_address(c: ConfigView) -> Address {
    if c.ipv6 {
        Address::V6Loopback(c.port)
    } else {
        Address::V4Any(c.port)
    }
}

/// The number of workers that serve: the number asked for, and one where
/// fewer than two were asked for.
pub open spec fn workers(c: ConfigView) -> nat {
    if c.threads < 2 {
        1
    } else {
        c.threads
    }
}

/// Detaching, where it is asked for, comes first.
pub open spec fn detach_steps(c: ConfigView) -> Seq<StepView> {
    if c.daemon {
        seq![StepView::Announce("Forking to background..."@), StepView::Daemonize]
    } else {
        Seq::empty()
    }
}

/// Confinement, where it is asked for, follows the change of directory.
pub open spec fn confine_steps(c: ConfigView) -> Seq<StepView> {
    if c.chroot {
        seq![
            StepView::Chroot(c.root),
            StepView::Announce("Chrooted to '"@ + c.root + "'"@),
        ]
    } else {
        Seq::empty()
    }
}

/// Listening and serving come last.
pub open spec fn listen_steps(c: ConfigView) -> Seq<StepView> {
    seq![
        StepView::Announce("Serving directory '"@ + c.root + "'"@),
        StepView::Bind(listen_address(c)),
        StepView::Announce("Listening on http:/"@ + listen_address(c).text() + "/"@),
        StepView::Serve(workers(c)),
    ]
}

/// All the steps of a startup, in order.
pub open spec fn plan(c: ConfigView) -> Seq<StepView> {
    detach_steps(c) + seq![StepView::ChangeDir(c.root)] + confine_steps(c) + listen_steps(c)
}

/// What is said when `step` has failed; `detail` is what the system said
/// of the failure. With no step, the detail stands alone.
pub open spec fn failure_text(step: Option<StepView>, detail: Seq<char>) -> Seq<char> {
    match step {
        Some(StepView::Daemonize) => "Daemonizing failed! "@ + detail,
        Some(StepView::ChangeDir(dir)) => "Could not change root to '"@ + dir + "'!"@,
        Some(StepView::Chroot(_)) => "Chrooting failed with code "@ + detail + "!"@,
        Some(StepView::Bind(Address::V6Loopback(_))) => "`Server::http(...)` failed with "@
            + detail,
        Some(StepView::Bind(Address::V4Any(_))) => "`Server::http(...)` failed with "@ + detail
            + "!"@,
        Some(StepView::Serve(_)) => "`request.respond(...)` failed with "@ + detail + "!"@,
        Some(StepView::Announce(_)) => detail,
        None => detail,
    }
}

/// Adds one step at the end of a plan.
fn push_step(steps: &mut Vec<Step>, step: Step)
    ensures
        step_views(final(steps)@) == step_views(old(steps)@).push(step@),
{
    steps.push(step);
    assert(step_views(steps@) =~= step_views(old(steps)@).push(step@));
}

/// The line that holds `dir` between `before` and `after`.
fn quoted_line(before: &str, dir: &str, after: &str) -> (out: String)
    ensures
        out@ == before@ + dir@ + after@,
{
    let mut out = before.to_owned();
    out.append(dir);
    out.append(after);
    out
}

/// The line that is `before` followed by `rest`.
fn joined(before: &str, rest: &str) -> (out: String)
    ensures
        out@ == before@ + rest@,
{
    let mut out = before.to_owned();
    out.append(rest);
    out
}

/// The address to listen on.
pub fn address_of(config: &Config) -> (address: Address)
    ensures
        address == listen_address(config@),
{
    if config.ipv6 {
        Address::V6Loopback(config.port)
    } else {
        Address::V4Any(config.port)
    }
}

/// The steps of a startup under `config`, in order.
pub fn startup_plan(config: &Config) -> (steps: Vec<Step>)
    ensures
        step_views(steps@) == plan(config@),
{
    let mut steps: Vec<Step> = Vec::new();
    assert(step_views(steps@) =~= Seq::<StepView>::empty());
    if config.daemon {
        push_step(&mut steps, Step::Announce("Forking to background...".to_owned()));
        push_step(&mut steps, Step::Daemonize);
    }
    assert(step_views(steps@) =~= detach_steps(config@));
    push_step(&mut steps, Step::ChangeDir(config.root.clone()));
    if config.chroot {
        push_step(&mut steps, Step::Chroot(config.root.clone()));
        push_step(
            &mut steps,
            Step::Announce(quoted_line("Chrooted to '", config.root.as_str(), "'")),
        );
    }
    assert(step_views(steps@) =~= detach_steps(config@) + seq![StepView::ChangeDir(config@.root)]
        + confine_steps(config@));
    let address = address_of(config);
    let shown = address.to_text();
    push_step(
        &mut steps,
        Step::Announce(quoted_line("Serving directory '", config.root.as_str(), "'")),
    );
    push_step(&mut steps, Step::Bind(address));
    push_step(&mut steps, Step::Announce(quoted_line("Listening on http:/", shown.as_str(), "/")));
    let count: usize = if config.threads < 2 {
        1
    } else {
        config.threads
    };
    push_step(&mut steps, Step::Serve(count));
    assert(step_views(steps@) =~= plan(config@));
    steps
}

/// What is said when `step` has failed.
pub fn failure_message(step: Option<&Step>, detail: &str) -> (out: String)
    ensures
        out@ == failure_text(
            match step {
                Some(s) => Some(s@),
                None => None,
            },
            detail@,
        ),
{
    match step {
        Some(Step::Daemonize) => joined("Daemonizing failed! ", detail),
        Some(Step::ChangeDir(dir)) => quoted_line("Could not change root to '", dir.as_str(), "'!"),
        Some(Step::Chroot(_)) => quoted_line("Chrooting failed with code ", detail, "!"),
        Some(Step::Bind(Address::V6Loopback(_))) => joined(
            "`Server::http(...)` failed with ",
            detail,
        ),
        Some(Step::Bind(Address::V4Any(_))) => quoted_line(
            "`Server::http(...)` failed with ",
            detail,
            "!",
        ),
        Some(Step::Serve(_)) => quoted_line("`request.respond(...)` failed with ", detail, "!"),
        Some(Step::Announce(_)) => detail.to_owned(),
        None => detail.to_owned(),
    }
}

/// What becomes of the server when a response could not be written.
#[derive(Debug, Clone, Copy, PartialEq, Eq)]
pub enum WriteFailure {
    /// The server ends: the failure is the failure of the serving step.
    StopServer,
    /// The worker that met the failure ends; the other workers go on.
    StopWorker,
}

/// What a response that could not be written means where `workers`
/// workers serve: with a single worker it ends the server, among several
/// it ends only the worker that met it.
pub open spec fn write_failure_of(workers: nat) -> WriteFailure {
    if workers < 2 {
        WriteFailure::StopServer
    } else {
        WriteFailure::StopWorker
    }
}

/// Decides what a response that could not be written means.
pub fn on_write_failure(workers: usize) -> (r: WriteFailure)
    ensures
        r == write_failure_of(workers as nat),
{
    if workers < 2 {
        WriteFailure::StopServer
    } else {
        WriteFailure::StopWorker
    }
}

/// A startup in progress: the plan, how much of it has been handed out, and
/// whether a step has failed.
pub struct Launch {
    plan: Vec<Step>,
    issued: usize,
    halted: bool,
}

/// What a `Launch` holds, as the contracts speak of it.
pub struct LaunchView {
    pub plan: Seq<StepView>,
    pub issued: nat,
    pub halted: bool,
}

impl LaunchView {
    /// A step is still to be handed out.
    pub open spec fn pending(self) -> bool {
        !self.halted && self.issued < self.plan.len()
    }

    /// The step that is handed out next, if there is one.
    pub open spec fn next_step(self) -> Option<StepView> {
        if self.pending() {
            Some(self.plan[self.issued as int])
        } else {
            None
        }
    }

    /// The startup after the next step has been handed out.
    pub open spec fn after_next(self) -> LaunchView {
        if self.pending() {
            LaunchView { plan: self.plan, issued: self.issued + 1, halted: self.halted }
        } else {
            self
        }
    }

    /// The step that was handed out last, if any was.
    pub open spec fn last_issued(self) -> Option<StepView> {
        if 0 < self.issued <= self.plan.len() {
            Some(self.plan[self.issued - 1])
        } else {
            None
        }
    }

    /// The startup after a step has failed.
    pub open spec fn after_failure(self) -> LaunchView {
        LaunchView { plan: self.plan, issued: self.issued, halted: true }
    }
}

impl View for Launch {
    type V = LaunchView;

    closed spec fn view(&self) -> LaunchView {
        LaunchView {
            plan: step_views(self.plan@),
            issued: self.issued as nat,
            halted: self.halted,
        }
    }
}

impl Launch {
    /// A startup under `config` of which nothing has been done yet.
    pub fn new(config: &Config) -> (launch: Launch)
        ensures
            launch@ == (LaunchView { plan: plan(config@), issued: 0, halted: false }),
    {
        Launch { plan: startup_plan(config), issued: 0, halted: false }
    }

    /// Hands out the next step. There is none once a step has failed, or
    /// when all have been handed out.
    pub fn next(&mut self) -> (step: Option<Step>)
        ensures
            final(self)@ == old(self)@.after_next(),
            match step {
                Some(s) => old(self)@.next_step() == Some(s@),
                None => old(self)@.next_step() is None,
            },
    {
        if self.halted || self.issued >= self.plan.len() {
            None
        } else {
            let step = self.plan[self.issued].copy();
            self.issued = self.issued + 1;
            Some(step)
        }
    }

    /// Records that the step handed out last has failed, and returns what
    /// is to be said of it. No further step is handed out.
    pub fn fail(&mut self, detail: &str) -> (said: String)
        ensures
            final(self)@ == old(self)@.after_failure(),
            said@ == failure_text(old(self)@.last_issued(), detail@),
    {
        self.halted = true;
        if 0 < self.issued && self.issued <= self.plan.len() {
            failure_message(Some(&self.plan[self.issued - 1]), detail)
        } else {
            failure_message(None, detail)
        }
    }

    /// Whether a step has failed.
    pub fn halted(&self) -> (halted: bool)
        ensures
            halted == self@.halted,
    {
        self.halted
    }
}

/// Detaching happens before the socket is bound, so that the process that
/// goes on in the background is the one that owns the listener.
pub proof fn lemma_detach_precedes_bind(c: ConfigView, i: int, j: int)
    requires
        0 <= i < plan(c).len(),
        0 <= j < plan(c).len(),
        plan(c)[i] is Daemonize,
        plan(c)[j] is Bind,
    ensures
        i < j,
{
}

/// Confinement happens after the working directory has been changed and
/// before any request is accepted, and it is in the plan exactly when the
/// configuration asks for it.
pub proof fn lemma_confinement_in_order(c: ConfigView, i: int, j: int, k: int)
    requires
        0 <= i < plan(c).len(),
        0 <= j < plan(c).len(),
        0 <= k < plan(c).len(),
        plan(c)[i] is ChangeDir,
        plan(c)[j] is Chroot,
        plan(c)[k] is Serve,
    ensures
        i < j < k,
        c.chroot,
        plan(c)[j] == StepView::Chroot(c.root),
{
}

/// A plan asks for confinement whenever the configuration does.
pub proof fn lemma_confinement_is_planned(c: ConfigView)
    requires
        c.chroot,
    ensures
        exists|j: int| 0 <= j < plan(c).len() && plan(c)[j] == StepView::Chroot(c.root),
{
    let j = detach_steps(c).len() as int + 1;
    assert(plan(c)[j] == StepView::Chroot(c.root));
}

/// A plan binds one socket, and binds it at the port that was configured:
/// no other port is ever listened on.
pub proof fn lemma_bind_is_at_configured_port(c: ConfigView, j: int)
    requires
        0 <= j < plan(c).len(),
        plan(c)[j] is Bind,
    ensures
        j == plan(c).len() - 3,
        plan(c)[j] == StepView::Bind(listen_address(c)),
        listen_address(c).port() == c.port,
        listen_address(c) is V6Loopback <==> c.ipv6,
{
}

/// Serving is the last step of every plan and occurs nowhere else: no
/// request is accepted before every other step has been handed out.
pub proof fn lemma_serve_is_last(c: ConfigView, k: int)
    requires
        0 <= k < plan(c).len(),
    ensures
        plan(c)[k] is Serve <==> k == plan(c).len() - 1,
{
}

/// Once a step has failed the startup is over: no step is handed out, and
/// asking for one changes nothing.
pub proof fn lemma_failure_ends_startup(launch: LaunchView)
    ensures
        launch.after_failure().next_step() is None,
        launch.after_failure().after_next() == launch.after_failure(),
{
}

} // verus!
