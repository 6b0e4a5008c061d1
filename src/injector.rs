use vstd::prelude::*;

use crate::config::{pick_unused_port, port_is_free, resolve_port, Config};
use crate::protocol::{
    classify_reply, evaluate_request, evaluate_request_text, reply_outcome, DevtoolPage, Reply,
};
use crate::text::{decimal, lemma_decimal_injective, push_decimal};

verus! {

/// Pause between two rounds of the injection loop, in milliseconds.
pub const INJECT_LOOP_SLEEP_MS: u64 = 1000;

/// How long the debug port may stay unreachable after the start delay, in
/// milliseconds.
pub const WAIT_DEBUGGING_PORT_TIMEOUT_MS: u64 = 30000;

/// A script to inject: where it was read from, and its text.
pub struct UserScript {
    pub file_path: String,
    pub content: String,
}

/// Why a run failed.
#[derive(PartialEq, Eq, Structural, Clone, Copy, Debug)]
pub enum RunError {
    /// The target could not be started.
    Spawn,
    /// The debug port did not answer within the readiness window.
    ReadinessTimeout,
    /// Listing the pages failed after the port had answered.
    Discovery,
    /// A page's control channel could not be opened, written or read.
    Channel,
    /// A text reply did not hold an evaluate response.
    MalformedReply,
    /// Not every known page was covered before the timeout.
    LoopTimeout,
    /// An event came that the current phase does not expect.
    UnexpectedEvent,
}

/// Where the coordinator stands.
#[derive(PartialEq, Eq, Structural, Clone, Copy, Debug)]
pub enum Phase {
    /// Nothing done yet.
    Starting,
    /// The target is being launched.
    Launching,
    /// Waiting out the start delay.
    Delaying,
    /// Polling the page list until the debug port answers.
    WaitingForDebugPort,
    /// Listing the pages of one round.
    Discovering,
    /// Opening the control channel of the current page.
    Opening,
    /// An evaluate call on the current page is in flight.
    Evaluating,
    /// Closing the control channel of the current page.
    Closing,
    /// Listing the pages again after a round.
    Rechecking,
    /// Sleeping between two rounds.
    Pausing,
    /// Every known page has been covered.
    Done,
    /// The run failed.
    Failed,
}

/// What the outside world reports to the coordinator.
pub enum Event {
    /// The run begins.
    Begin,
    /// The target was launched.
    Spawned,
    /// The target could not be launched.
    SpawnFailed,
    /// A sleep ended at `now_ms`.
    Slept { now_ms: u64 },
    /// The page list, read at `now_ms`.
    Pages { pages: Vec<DevtoolPage>, now_ms: u64 },
    /// The page list could not be read at `now_ms`.
    ListFailed { now_ms: u64 },
    /// The control channel is open.
    ChannelOpened,
    /// The control channel could not be opened.
    ChannelFailed,
    /// The reply to the evaluate call came.
    Replied(Reply),
    /// Sending the request or reading its reply failed.
    ExchangeFailed,
    /// The control channel was closed.
    ChannelClosed,
}

/// What the coordinator asks the outside world to do next.
pub enum Action {
    /// Launch `program` with `args`.
    Spawn { program: String, args: Vec<String> },
    /// Sleep for `ms` milliseconds.
    Sleep { ms: u64 },
    /// Read the page list at `url`.
    ListPages { url: String },
    /// Open the control channel at `address`.
    OpenChannel { address: String },
    /// Send `request` on the open channel and read one reply.
    Evaluate { request: String },
    /// Close the open channel.
    CloseChannel,
    /// The run succeeded.
    Finish,
    /// The run failed.
    Fail(RunError),
}

/// The discovery-and-injection coordinator of one run.
pub struct Injector {
    pub config: Config,
    /// The port that the target is launched with.
    pub port: u16,
    /// Text of the prelude script.
    pub prelude: String,
    /// The scripts to inject, in order.
    pub scripts: Vec<UserScript>,
    pub phase: Phase,
    /// The cause of failure, once the phase is `Failed`.
    pub error: RunError,
    /// Identifiers of the pages that have received every script.
    pub injected: Vec<String>,
    /// The page list of the current round.
    pub pages: Vec<DevtoolPage>,
    /// Position of the current page in `pages`.
    pub page_index: usize,
    /// Position in the plan of the evaluate call in flight.
    pub step: usize,
    /// When the readiness wait began.
    pub wait_start: u64,
    /// When the injection loop began.
    pub loop_start: u64,
    /// Every evaluate call asked for so far: page identifier and position in
    /// the plan.
    pub evaluations: Ghost<Seq<(Seq<char>, int)>>,
}

/// The identifiers of a page list.
pub open spec fn page_ids(pages: Seq<DevtoolPage>) -> Seq<Seq<char>> {
    pages.map_values(|p: DevtoolPage| p.id@)
}

/// The texts of a list of strings.
pub open spec fn texts(v: Seq<String>) -> Seq<Seq<char>> {
    v.map_values(|s: String| s@)
}

/// Time from `start` to `now`, zero where the clock went back.
pub open spec fn elapsed(now: u64, start: u64) -> int {
    if now >= start {
        now - start
    } else {
        0
    }
}

/// Whether `phase` has an answer to `event` other than failing it as
/// unexpected.
pub open spec fn expects(phase: Phase, event: Event) -> bool {
    match event {
        Event::Begin => phase == Phase::Starting,
        Event::Spawned | Event::SpawnFailed => phase == Phase::Launching,
        Event::Slept { .. } => phase == Phase::Delaying || phase == Phase::Pausing,
        Event::Pages { .. } => phase == Phase::WaitingForDebugPort || phase == Phase::Discovering
            || phase == Phase::Rechecking,
        Event::ListFailed { .. } => phase == Phase::WaitingForDebugPort || phase
            == Phase::Discovering || phase == Phase::Rechecking,
        Event::ChannelOpened | Event::ChannelFailed => phase == Phase::Opening,
        Event::Replied(_) | Event::ExchangeFailed => phase == Phase::Evaluating,
        Event::ChannelClosed => phase == Phase::Closing,
    }
}

/// Whether the phase has a current page.
pub open spec fn on_page(phase: Phase) -> bool {
    phase == Phase::Opening || phase == Phase::Evaluating || phase == Phase::Closing
}

impl Injector {
    /// The expressions evaluated on each page, in order: the prelude when it
    /// is enabled, then every script.
    pub open spec fn plan(&self) -> Seq<Seq<char>> {
        (if self.config.prelude {
            seq![self.prelude@]
        } else {
            Seq::<Seq<char>>::empty()
        }) + self.scripts@.map_values(|u: UserScript| u.content@)
    }

    pub open spec fn injected_ids(&self) -> Seq<Seq<char>> {
        texts(self.injected@)
    }

    pub open spec fn current_id(&self) -> Seq<char> {
        self.pages@[self.page_index as int].id@
    }

    /// The arguments that the target is launched with.
    pub open spec fn launch_args(&self) -> Seq<Seq<char>> {
        seq!["--remote-debugging-port="@ + decimal(self.port as nat)] + texts(self.config.arg@)
    }

    /// The address of the page list.
    pub open spec fn discovery_url(&self) -> Seq<char> {
        "http://"@ + self.config.host@ + ":"@ + decimal(self.port as nat) + "/json/list"@
    }

    /// Whether every page of the current round has been covered.
    pub open spec fn round_covered(&self) -> bool {
        forall|i: int|
            0 <= i < self.pages@.len() ==> self.injected_ids().contains(
                #[trigger] page_ids(self.pages@)[i],
            )
    }

    /// The coordinator's invariant.
    pub open spec fn wf(&self) -> bool {
        &&& self.scripts@.len() < usize::MAX
        &&& self.page_index <= self.pages@.len()
        &&& on_page(self.phase) ==> self.page_index < self.pages@.len()
        &&& on_page(self.phase) ==> forall|i: int|
            0 <= i < self.page_index ==> self.injected_ids().contains(
                #[trigger] page_ids(self.pages@)[i],
            )
        &&& (self.phase == Phase::Opening || self.phase == Phase::Evaluating)
            ==> !self.injected_ids().contains(self.current_id())
        &&& self.phase == Phase::Closing ==> self.injected_ids().contains(self.current_id())
        &&& self.phase == Phase::Evaluating ==> self.step < self.plan().len()
        &&& (self.phase == Phase::Rechecking || self.phase == Phase::Pausing)
            ==> self.round_covered()
        &&& self.injected_ids().no_duplicates()
        &&& self.evaluations@.no_duplicates()
        &&& forall|j: int|
            0 <= j < self.evaluations@.len() ==> {
                let e = #[trigger] self.evaluations@[j];
                self.injected_ids().contains(e.0) || ((self.phase == Phase::Evaluating
                    || self.phase == Phase::Failed) && self.page_index < self.pages@.len() && e.0
                    == self.current_id() && 0 <= e.1 <= self.step)
            }
    }

    /// A coordinator that has done nothing yet.
    pub fn new(config: Config, port: u16, prelude: String, scripts: Vec<UserScript>) -> (r:
        Injector)
        requires
            scripts@.len() < usize::MAX,
        ensures
            r.wf(),
            r.phase == Phase::Starting,
            r.config == config,
            r.port == port,
            r.prelude == prelude,
            r.scripts == scripts,
            r.injected@.len() == 0,
            r.evaluations@.len() == 0,
    {
        Injector {
            config,
            port,
            prelude,
            scripts,
            phase: Phase::Starting,
            error: RunError::UnexpectedEvent,
            injected: Vec::new(),
            pages: Vec::new(),
            page_index: 0,
            step: 0,
            wait_start: 0,
            loop_start: 0,
            evaluations: Ghost(Seq::empty()),
        }
    }

    /// The port to launch the target with: the preferred one where it is
    /// free, else one that the system reports free; `None` where none could
    /// be found.
    pub fn get_available_port(config: &Config) -> (r: Option<u16>)
        ensures
            r matches Some(p) ==> p == config.port || p != 0,
            config.wf() ==> (r matches Some(p) ==> p >= 1),
    {
        if port_is_free(config.port) {
            resolve_port(config.port, true, None)
        } else {
            let fallback = pick_unused_port();
            resolve_port(config.port, false, fallback)
        }
    }

    /// The prelude script, where it is enabled.
    pub fn get_prelude_script(&self) -> (r: Option<String>)
        ensures
            self.config.prelude ==> (r matches Some(t) && t@ == self.prelude@),
            !self.config.prelude ==> r is None,
    {
        if !self.config.prelude {
            return None;
        }
        Some(self.prelude.clone())
    }

    /// The arguments that the target is launched with.
    pub fn launch_arguments(&self) -> (r: Vec<String>)
        ensures
            texts(r@) == self.launch_args(),
    {
        let mut first = String::from_str("--remote-debugging-port=");
        push_decimal(&mut first, self.port as u64);
        let mut args: Vec<String> = Vec::new();
        args.push(first);
        let mut i: usize = 0;
        while i < self.config.arg.len()
            invariant
                i <= self.config.arg@.len(),
                texts(args@) =~= seq!["--remote-debugging-port="@ + decimal(self.port as nat)]
                    + texts(self.config.arg@.subrange(0, i as int)),
            decreases self.config.arg@.len() - i,
        {
            let a = self.config.arg[i].clone();
            let ghost before = args@;
            args.push(a);
            proof {
                let sub = self.config.arg@.subrange(0, i as int);
                let sub1 = self.config.arg@.subrange(0, i + 1);
                assert(sub1 =~= sub.push(self.config.arg@[i as int]));
                assert(texts(sub1) =~= texts(sub).push(self.config.arg@[i as int]@));
                assert(texts(args@) =~= texts(before).push(self.config.arg@[i as int]@));
            }
            i = i + 1;
        }
        assert(self.config.arg@.subrange(0, i as int) =~= self.config.arg@);
        args
    }

    /// The address of the page list.
    pub fn list_url(&self) -> (r: String)
        ensures
            r@ == self.discovery_url(),
    {
        let mut url = String::from_str("http://");
        url.append(self.config.host.as_str());
        url.append(":");
        push_decimal(&mut url, self.port as u64);
        url.append("/json/list");
        url
    }

    /// Whether `id` names a page that has received every script.
    pub fn is_injected(&self, id: &String) -> (r: bool)
        ensures
            r == self.injected_ids().contains(id@),
    {
        let mut i: usize = 0;
        while i < self.injected.len()
            invariant
                i <= self.injected@.len(),
                forall|j: int| 0 <= j < i ==> self.injected@[j]@ != id@,
            decreases self.injected@.len() - i,
        {
            if self.injected[i] == *id {
                assert(self.injected_ids()[i as int] == id@);
                return true;
            }
            i = i + 1;
        }
        assert forall|j: int| 0 <= j < self.injected_ids().len() implies self.injected_ids()[j]
            != id@ by {
            assert(self.injected@[j]@ != id@);
        }
        false
    }

    /// The expression at position `k` of the plan.
    fn expression_at(&self, k: usize) -> (r: &String)
        requires
            k < self.plan().len(),
        ensures
            r@ == self.plan()[k as int],
    {
        if self.config.prelude {
            if k == 0 {
                &self.prelude
            } else {
                &self.scripts[k - 1].content
            }
        } else {
            &self.scripts[k].content
        }
    }

    /// Whether a position after `k` is left in the plan.
    fn has_step_after(&self, k: usize) -> (r: bool)
        requires
            self.scripts@.len() < usize::MAX,
        ensures
            r == (k + 1 < self.plan().len()),
    {
        if self.config.prelude {
            k < self.scripts.len()
        } else {
            self.scripts.len() > 0 && k < self.scripts.len() - 1
        }
    }
}


/// Pushing onto a sequence adds exactly the pushed element to what it holds.
pub proof fn lemma_push_contains<A>(s: Seq<A>, x: A, y: A)
    ensures
        s.push(x).contains(y) <==> (s.contains(y) || y == x),
{
    if s.contains(y) {
        let i = choose|i: int| 0 <= i < s.len() && s[i] == y;
        assert(s.push(x)[i] == y);
    }
    if y == x {
        assert(s.push(x)[s.len() as int] == y);
    }
    if s.push(x).contains(y) {
        let i = choose|i: int| 0 <= i < s.push(x).len() && s.push(x)[i] == y;
        if i < s.len() {
            assert(s[i] == y);
        }
    }
}

/// Pushing an element that a sequence does not hold keeps it free of
/// duplicates.
pub proof fn lemma_push_fresh<A>(s: Seq<A>, x: A)
    requires
        s.no_duplicates(),
        !s.contains(x),
    ensures
        s.push(x).no_duplicates(),
{
    let t = s.push(x);
    assert forall|i: int, j: int| 0 <= i < t.len() && 0 <= j < t.len() && i != j implies t[i]
        != t[j] by {
        if i < s.len() && j < s.len() {
            assert(t[i] == s[i] && t[j] == s[j]);
        } else if i < s.len() {
            assert(t[i] == s[i]);
        } else if j < s.len() {
            assert(t[j] == s[j]);
        }
    }
}

impl Injector {
    /// The first page at or after `from` that has not been covered yet, or
    /// the length of the round's list where there is none.
    fn next_pending(&self, from: usize) -> (r: usize)
        requires
            from <= self.pages@.len(),
        ensures
            from <= r <= self.pages@.len(),
            forall|i: int|
                from <= i < r ==> self.injected_ids().contains(#[trigger] page_ids(self.pages@)[i]),
            r < self.pages@.len() ==> !self.injected_ids().contains(page_ids(self.pages@)[r as int]),
    {
        let mut k: usize = from;
        while k < self.pages.len()
            invariant
                from <= k <= self.pages@.len(),
                forall|i: int|
                    from <= i < k ==> self.injected_ids().contains(
                        #[trigger] page_ids(self.pages@)[i],
                    ),
            decreases self.pages@.len() - k,
        {
            if !self.is_injected(&self.pages[k].id) {
                return k;
            }
            k = k + 1;
        }
        k
    }

    /// Starts on the first uncovered page at or after `from`, or lists the
    /// pages again where the round is covered.
    fn enter_page_or_recheck(&mut self, from: usize) -> (r: Action)
        requires
            from <= old(self).pages@.len(),
            forall|i: int|
                0 <= i < from ==> old(self).injected_ids().contains(
                    #[trigger] page_ids(old(self).pages@)[i],
                ),
        ensures
            final(self).config == old(self).config,
            final(self).port == old(self).port,
            final(self).prelude == old(self).prelude,
            final(self).scripts == old(self).scripts,
            final(self).injected == old(self).injected,
            final(self).pages == old(self).pages,
            final(self).evaluations == old(self).evaluations,
            final(self).wait_start == old(self).wait_start,
            final(self).loop_start == old(self).loop_start,
            final(self).error == old(self).error,
            final(self).step == old(self).step,
            final(self).page_index <= final(self).pages@.len(),
            match r {
                Action::OpenChannel { address } => {
                    &&& final(self).phase == Phase::Opening
                    &&& from <= final(self).page_index < final(self).pages@.len()
                    &&& address@ == final(self).pages@[final(self).page_index as int].web_socket_debugger_url@
                    &&& !final(self).injected_ids().contains(final(self).current_id())
                    &&& forall|i: int|
                        0 <= i < final(self).page_index ==> final(self).injected_ids().contains(
                            #[trigger] page_ids(final(self).pages@)[i],
                        )
                },
                Action::ListPages { url } => {
                    &&& final(self).phase == Phase::Rechecking
                    &&& url@ == final(self).discovery_url()
                    &&& final(self).round_covered()
                },
                _ => false,
            },
    {
        let k = self.next_pending(from);
        if k < self.pages.len() {
            self.page_index = k;
            self.phase = Phase::Opening;
            let address = self.pages[k].web_socket_debugger_url.clone();
            Action::OpenChannel { address }
        } else {
            self.page_index = k;
            self.phase = Phase::Rechecking;
            Action::ListPages { url: self.list_url() }
        }
    }
}

impl Injector {
    /// Fails the run with `e`.
    fn fail(&mut self, e: RunError) -> (r: Action)
        requires
            old(self).wf(),
        ensures
            final(self).wf(),
            final(self).phase == Phase::Failed,
            final(self).error == e,
            r matches Action::Fail(f) && f == e,
            final(self).config == old(self).config,
            final(self).port == old(self).port,
            final(self).prelude == old(self).prelude,
            final(self).scripts == old(self).scripts,
            final(self).injected == old(self).injected,
            final(self).evaluations == old(self).evaluations,
    {
        self.phase = Phase::Failed;
        self.error = e;
        Action::Fail(e)
    }

    /// Asks for the evaluate call at position `k` of the plan on the current
    /// page.
    fn evaluate_at(&mut self, k: usize) -> (r: Action)
        requires
            old(self).scripts@.len() < usize::MAX,
            k < old(self).plan().len(),
            old(self).page_index < old(self).pages@.len(),
            forall|i: int|
                0 <= i < old(self).page_index ==> old(self).injected_ids().contains(
                    #[trigger] page_ids(old(self).pages@)[i],
                ),
            !old(self).injected_ids().contains(old(self).current_id()),
            old(self).injected_ids().no_duplicates(),
            old(self).evaluations@.no_duplicates(),
            forall|j: int|
                0 <= j < old(self).evaluations@.len() ==> {
                    let e = #[trigger] old(self).evaluations@[j];
                    old(self).injected_ids().contains(e.0) || (e.0 == old(self).current_id()
                        && 0 <= e.1 < k)
                },
        ensures
            final(self).wf(),
            final(self).config == old(self).config,
            final(self).port == old(self).port,
            final(self).prelude == old(self).prelude,
            final(self).scripts == old(self).scripts,
            final(self).injected == old(self).injected,
            final(self).pages == old(self).pages,
            final(self).page_index == old(self).page_index,
            final(self).wait_start == old(self).wait_start,
            final(self).loop_start == old(self).loop_start,
            r matches Action::Evaluate { request } && request@ == evaluate_request_text(
                old(self).plan()[k as int],
            ),
            final(self).phase == Phase::Evaluating,
            final(self).step == k,
            final(self).evaluations@ == old(self).evaluations@.push(
                (old(self).current_id(), k as int),
            ),
    {
        let request = evaluate_request(self.expression_at(k).as_str());
        let ghost entry = (self.current_id(), k as int);
                proof {
                    assert forall|j: int|
                        0 <= j < self.evaluations@.len() implies self.evaluations@[j] != entry by {
                        let e = self.evaluations@[j];
                        if self.injected_ids().contains(e.0) {
                            assert(e.0 != entry.0);
                        }
                    }
                    lemma_push_fresh(self.evaluations@, entry);
                }
                self.evaluations = Ghost(self.evaluations@.push(entry));
                self.step = k;
                self.phase = Phase::Evaluating;
                proof {
                    assert forall|j: int| 0 <= j < self.evaluations@.len() implies {
                        let e = #[trigger] self.evaluations@[j];
                        self.injected_ids().contains(e.0) || ((self.phase == Phase::Evaluating
                            || self.phase == Phase::Failed) && self.page_index
                            < self.pages@.len() && e.0 == self.current_id() && 0 <= e.1
                            <= self.step)
                    } by {
                        if j < self.evaluations@.len() - 1 {
                            assert(self.evaluations@[j] == old(self).evaluations@[j]);
                        }
                    }
                }
                Action::Evaluate { request }
    }

    /// Records the current page as covered and asks for its channel to be
    /// closed.
    fn finish_page(&mut self) -> (r: Action)
        requires
            old(self).scripts@.len() < usize::MAX,
            old(self).page_index < old(self).pages@.len(),
            forall|i: int|
                0 <= i < old(self).page_index ==> old(self).injected_ids().contains(
                    #[trigger] page_ids(old(self).pages@)[i],
                ),
            !old(self).injected_ids().contains(old(self).current_id()),
            old(self).injected_ids().no_duplicates(),
            old(self).evaluations@.no_duplicates(),
            forall|j: int|
                0 <= j < old(self).evaluations@.len() ==> {
                    let e = #[trigger] old(self).evaluations@[j];
                    old(self).injected_ids().contains(e.0) || e.0 == old(self).current_id()
                },
        ensures
            final(self).wf(),
            r is CloseChannel,
            final(self).phase == Phase::Closing,
            final(self).injected_ids() == old(self).injected_ids().push(old(self).current_id()),
            final(self).config == old(self).config,
            final(self).port == old(self).port,
            final(self).prelude == old(self).prelude,
            final(self).scripts == old(self).scripts,
            final(self).pages == old(self).pages,
            final(self).page_index == old(self).page_index,
            final(self).evaluations == old(self).evaluations,
            final(self).wait_start == old(self).wait_start,
            final(self).loop_start == old(self).loop_start,
    {
        let id = self.pages[self.page_index].id.clone();
        let ghost old_ids = self.injected_ids();
        self.injected.push(id);
        self.phase = Phase::Closing;
        proof {
            let cur = old(self).current_id();
            assert(self.injected_ids() =~= old_ids.push(cur));
            lemma_push_fresh(old_ids, cur);
            assert forall|x: Seq<char>| old_ids.contains(x) implies self.injected_ids().contains(
                x,
            ) by {
                lemma_push_contains(old_ids, cur, x);
            }
            lemma_push_contains(old_ids, cur, cur);
        }
        Action::CloseChannel
    }
}

impl Injector {
    /// Whether `self` runs with the same settings and scripts as `other`.
    pub open spec fn same_setup(&self, other: &Injector) -> bool {
        &&& self.config == other.config
        &&& self.port == other.port
        &&& self.prelude == other.prelude
        &&& self.scripts == other.scripts
    }

    /// Takes one event and decides the next action.
    #[verifier::rlimit(50)]
    pub fn step(&mut self, event: Event) -> (r: Action)
        requires
            old(self).wf(),
        ensures
            final(self).wf(),
            final(self).same_setup(old(self)),
            old(self).injected_ids().is_prefix_of(final(self).injected_ids()),
            // Each evaluate call is recorded once, when it is asked for.
            r is Evaluate ==> final(self).evaluations@ == old(self).evaluations@.push(
                (final(self).current_id(), final(self).step as int),
            ),
            !(r is Evaluate) ==> final(self).evaluations@ == old(self).evaluations@,
            r matches Action::Evaluate { request } ==> final(self).phase == Phase::Evaluating
                && request@ == evaluate_request_text(final(self).plan()[final(self).step as int]),
            // Only a page that has not been covered is opened.
            r matches Action::OpenChannel { address } ==> final(self).phase == Phase::Opening
                && address@ == final(self).pages@[final(self).page_index as int].web_socket_debugger_url@
                && !old(self).injected_ids().contains(final(self).current_id()),
            r matches Action::Spawn { program, args } ==> old(self).phase == Phase::Starting
                && program@ == old(self).config.app@ && texts(args@) == old(self).launch_args(),
            r matches Action::ListPages { url } ==> url@ == old(self).discovery_url(),
            r matches Action::Sleep { ms } ==> (old(self).phase == Phase::Launching && ms
                == old(self).config.delay) || (old(self).phase == Phase::Rechecking && ms
                == INJECT_LOOP_SLEEP_MS),
            r is Finish <==> final(self).phase == Phase::Done,
            r matches Action::Fail(e) ==> final(self).phase == Phase::Failed && final(self).error
                == e,
            final(self).phase == Phase::Failed ==> (r matches Action::Fail(e) && e
                == final(self).error),
            // Terminal phases stay.
            old(self).phase == Phase::Done ==> final(self).phase == Phase::Done,
            old(self).phase == Phase::Failed ==> final(self).phase == Phase::Failed
                && final(self).error == old(self).error,
            // The transitions.
            old(self).phase == Phase::Starting && event is Begin ==> r is Spawn
                && final(self).phase == Phase::Launching,
            old(self).phase == Phase::Launching && event is Spawned ==> r is Sleep
                && final(self).phase == Phase::Delaying,
            old(self).phase == Phase::Launching && event is SpawnFailed ==> final(self).error
                == RunError::Spawn && final(self).phase == Phase::Failed,
            old(self).phase == Phase::Delaying && event is Slept ==> r is ListPages
                && final(self).phase == Phase::WaitingForDebugPort
                && final(self).wait_start == event->Slept_now_ms,
            old(self).phase == Phase::WaitingForDebugPort && event is Pages ==> r is ListPages
                && final(self).phase == Phase::Discovering
                && final(self).loop_start == event->Pages_now_ms,
            old(self).phase == Phase::WaitingForDebugPort && event is ListFailed ==> if elapsed(
                event->ListFailed_now_ms,
                old(self).wait_start,
            ) >= WAIT_DEBUGGING_PORT_TIMEOUT_MS {
                final(self).phase == Phase::Failed && final(self).error
                    == RunError::ReadinessTimeout
            } else {
                r is ListPages && final(self).phase == Phase::WaitingForDebugPort
            },
            old(self).phase == Phase::Discovering && event is Pages ==> final(self).pages@
                == event->Pages_pages@ && (r is OpenChannel || (r is ListPages
                && final(self).phase == Phase::Rechecking)),
            (old(self).phase == Phase::Discovering || old(self).phase == Phase::Rechecking)
                && event is ListFailed ==> final(self).phase == Phase::Failed
                && final(self).error == RunError::Discovery,
            old(self).phase == Phase::Opening && event is ChannelOpened ==> if old(
                self,
            ).plan().len() > 0 {
                r is Evaluate && final(self).step == 0
            } else {
                r is CloseChannel && final(self).injected_ids() == old(self).injected_ids().push(
                    old(self).current_id(),
                )
            },
            old(self).phase == Phase::Opening && event is ChannelFailed ==> final(self).phase
                == Phase::Failed && final(self).error == RunError::Channel,
            // A reply that can be read moves on whatever it says.
            old(self).phase == Phase::Evaluating && event is Replied ==> if reply_outcome(
                event->Replied_0,
            ) is None {
                final(self).phase == Phase::Failed && final(self).error
                    == RunError::MalformedReply
            } else if old(self).step + 1 < old(self).plan().len() {
                r is Evaluate && final(self).step == old(self).step + 1
            } else {
                r is CloseChannel && final(self).injected_ids() == old(self).injected_ids().push(
                    old(self).current_id(),
                )
            },
            old(self).phase == Phase::Evaluating && event is ExchangeFailed ==> final(self).phase
                == Phase::Failed && final(self).error == RunError::Channel,
            old(self).phase == Phase::Closing && event is ChannelClosed ==> (r is OpenChannel
                && final(self).page_index > old(self).page_index) || (r is ListPages
                && final(self).phase == Phase::Rechecking),
            // The end of a round: done when every listed page is covered, else
            // a timeout or another round after a pause.
            old(self).phase == Phase::Rechecking && event is Pages ==> if old(self).injected@.len()
                == event->Pages_pages@.len() {
                r is Finish
            } else if elapsed(event->Pages_now_ms, old(self).loop_start) >= old(
                self,
            ).config.timeout {
                final(self).phase == Phase::Failed && final(self).error == RunError::LoopTimeout
            } else {
                r is Sleep && final(self).phase == Phase::Pausing
            },
            old(self).phase == Phase::Pausing && event is Slept ==> r is ListPages
                && final(self).phase == Phase::Discovering,
            // An event that the phase does not expect fails the run.
            old(self).phase != Phase::Done && old(self).phase != Phase::Failed && !expects(
                old(self).phase,
                event,
            ) ==> final(self).phase == Phase::Failed && final(self).error
                == RunError::UnexpectedEvent,
    {
        match self.phase {
            Phase::Done => {
                return Action::Finish;
            },
            Phase::Failed => {
                return Action::Fail(self.error);
            },
            _ => {},
        }
        match event {
            Event::Begin => {
                if self.phase == Phase::Starting {
                    self.phase = Phase::Launching;
                    let program = self.config.app.clone();
                    let args = self.launch_arguments();
                    Action::Spawn { program, args }
                } else {
                    self.fail(RunError::UnexpectedEvent)
                }
            },
            Event::Spawned => {
                if self.phase == Phase::Launching {
                    self.phase = Phase::Delaying;
                    Action::Sleep { ms: self.config.delay }
                } else {
                    self.fail(RunError::UnexpectedEvent)
                }
            },
            Event::SpawnFailed => {
                if self.phase == Phase::Launching {
                    self.fail(RunError::Spawn)
                } else {
                    self.fail(RunError::UnexpectedEvent)
                }
            },
            Event::Slept { now_ms } => {
                if self.phase == Phase::Delaying {
                    self.wait_start = now_ms;
                    self.phase = Phase::WaitingForDebugPort;
                    Action::ListPages { url: self.list_url() }
                } else if self.phase == Phase::Pausing {
                    self.phase = Phase::Discovering;
                    Action::ListPages { url: self.list_url() }
                } else {
                    self.fail(RunError::UnexpectedEvent)
                }
            },
            Event::Pages { pages, now_ms } => {
                if self.phase == Phase::WaitingForDebugPort {
                    self.loop_start = now_ms;
                    self.phase = Phase::Discovering;
                    Action::ListPages { url: self.list_url() }
                } else if self.phase == Phase::Discovering {
                    self.pages = pages;
                    self.enter_page_or_recheck(0)
                } else if self.phase == Phase::Rechecking {
                    if self.injected.len() == pages.len() {
                        self.phase = Phase::Done;
                        Action::Finish
                    } else {
                        let spent: u64 = if now_ms >= self.loop_start {
                            now_ms - self.loop_start
                        } else {
                            0
                        };
                        if spent >= self.config.timeout {
                            self.fail(RunError::LoopTimeout)
                        } else {
                            self.phase = Phase::Pausing;
                            Action::Sleep { ms: INJECT_LOOP_SLEEP_MS }
                        }
                    }
                } else {
                    self.fail(RunError::UnexpectedEvent)
                }
            },
            Event::ListFailed { now_ms } => {
                if self.phase == Phase::WaitingForDebugPort {
                    let waited: u64 = if now_ms >= self.wait_start {
                        now_ms - self.wait_start
                    } else {
                        0
                    };
                    if waited >= WAIT_DEBUGGING_PORT_TIMEOUT_MS {
                        self.fail(RunError::ReadinessTimeout)
                    } else {
                        Action::ListPages { url: self.list_url() }
                    }
                } else if self.phase == Phase::Discovering || self.phase == Phase::Rechecking {
                    self.fail(RunError::Discovery)
                } else {
                    self.fail(RunError::UnexpectedEvent)
                }
            },
            Event::ChannelOpened => {
                if self.phase == Phase::Opening {
                    if self.config.prelude || self.scripts.len() > 0 {
                        self.evaluate_at(0)
                    } else {
                        self.finish_page()
                    }
                } else {
                    self.fail(RunError::UnexpectedEvent)
                }
            },
            Event::ChannelFailed => {
                if self.phase == Phase::Opening {
                    self.fail(RunError::Channel)
                } else {
                    self.fail(RunError::UnexpectedEvent)
                }
            },
            Event::Replied(reply) => {
                if self.phase == Phase::Evaluating {
                    match classify_reply(&reply) {
                        None => self.fail(RunError::MalformedReply),
                        Some(_) => {
                            if self.has_step_after(self.step) {
                                self.evaluate_at(self.step + 1)
                            } else {
                                self.finish_page()
                            }
                        },
                    }
                } else {
                    self.fail(RunError::UnexpectedEvent)
                }
            },
            Event::ExchangeFailed => {
                if self.phase == Phase::Evaluating {
                    self.fail(RunError::Channel)
                } else {
                    self.fail(RunError::UnexpectedEvent)
                }
            },
            Event::ChannelClosed => {
                if self.phase == Phase::Closing {
                    assert(self.page_index < self.pages.len());
                    self.enter_page_or_recheck(self.page_index + 1)
                } else {
                    self.fail(RunError::UnexpectedEvent)
                }
            },
        }
    }
}

/// Over a run, no expression of the plan is evaluated twice on one page:
/// the record of evaluate calls holds each pair of page and plan position at
/// most once.
pub proof fn lemma_evaluated_at_most_once(inj: &Injector, i: int, j: int)
    requires
        inj.wf(),
        0 <= i < inj.evaluations@.len(),
        0 <= j < inj.evaluations@.len(),
        i != j,
    ensures
        inj.evaluations@[i] != inj.evaluations@[j],
{
}

/// When the page set stays the same, the list read after a round has as many
/// pages as there are covered identifiers, so the round ends the run.
pub proof fn lemma_static_pages_converge(inj: &Injector, pages: Seq<DevtoolPage>)
    requires
        inj.wf(),
        inj.phase == Phase::Rechecking,
        page_ids(pages).no_duplicates(),
        page_ids(pages).to_set() == page_ids(inj.pages@).to_set(),
        forall|x: Seq<char>| inj.injected_ids().contains(x) ==> page_ids(pages).contains(x),
    ensures
        inj.injected@.len() == pages.len(),
{
    let a = inj.injected_ids();
    let b = page_ids(pages);
    assert(a.to_set() =~= b.to_set()) by {
        assert forall|x: Seq<char>| a.to_set().contains(x) implies b.to_set().contains(x) by {
            assert(a.contains(x));
        }
        assert forall|x: Seq<char>| b.to_set().contains(x) implies a.to_set().contains(x) by {
            assert(page_ids(inj.pages@).to_set().contains(x));
            let i = choose|i: int| 0 <= i < page_ids(inj.pages@).len() && page_ids(inj.pages@)[i] == x;
            assert(a.contains(page_ids(inj.pages@)[i]));
        }
    }
    a.unique_seq_to_set();
    b.unique_seq_to_set();
}

/// The target is launched with, and the page list is read from, the port
/// that was chosen; where it differs from the preferred port, neither names
/// the preferred one.
pub proof fn lemma_chosen_port_is_targeted(inj: &Injector)
    ensures
        inj.launch_args()[0] == "--remote-debugging-port="@ + decimal(inj.port as nat),
        inj.port != inj.config.port ==> inj.launch_args()[0] != "--remote-debugging-port="@
            + decimal(inj.config.port as nat),
        inj.port != inj.config.port ==> inj.discovery_url() != "http://"@ + inj.config.host@
            + ":"@ + decimal(inj.config.port as nat) + "/json/list"@,
{
    let flag = "--remote-debugging-port="@;
    let head = "http://"@ + inj.config.host@ + ":"@;
    let tail = "/json/list"@;
    let dp = decimal(inj.port as nat);
    let dc = decimal(inj.config.port as nat);
    if inj.port != inj.config.port {
        if flag + dp == flag + dc {
            assert(dp =~= (flag + dp).subrange(flag.len() as int, (flag + dp).len() as int));
            assert(dc =~= (flag + dc).subrange(flag.len() as int, (flag + dc).len() as int));
            lemma_decimal_injective(inj.port as nat, inj.config.port as nat);
        }
        let u = head + dp + tail;
        let v = head + dc + tail;
        if u == v {
            assert(u.len() == head.len() + dp.len() + tail.len());
            assert(v.len() == head.len() + dc.len() + tail.len());
            assert(dp.len() == dc.len());
            let lo = head.len() as int;
            let hi = (head.len() + dp.len()) as int;
            assert(dp =~= u.subrange(lo, hi));
            assert(dc =~= v.subrange(lo, hi));
            assert(dp == dc);
            lemma_decimal_injective(inj.port as nat, inj.config.port as nat);
        }
        assert(inj.discovery_url() == u);
    }
}
} // verus!
