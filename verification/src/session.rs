//! The dispatcher: the registry of tasks, and the decision of what each
//! event of the bus leads to. Running the tasks, and waiting for events, is
//! left to the caller; every decision is taken here.
use crate::args::{expanded, Args};
use crate::bus::{Bus, EmitError};
use crate::config::Config;
use crate::database::node::{markdown_of, renderable, Node, NodeView, Type};
use crate::database::Database;
use crate::events;
use crate::events::{
    categories_of, category_of, matches_subscription, subscription_matches, Category, EventView,
};
use crate::modules::domain_takeover::ModuleDomainTakeover;
use crate::modules::dork::ModuleDork;
use crate::modules::passive_dns::ModulePassiveDNS;
use crate::modules::ready::ModuleReady;
use crate::modules::{context_of, get_context_for_event, Context, Module, NoiseLevel};
use crate::state::State;
use vstd::prelude::*;

verus! {

/// What the registry keeps of a task.
pub struct Registration {
    pub name: String,
    pub noise_level: NoiseLevel,
    pub subscriptions: Vec<Category>,
}

pub struct RegistrationView {
    pub name: Seq<char>,
    pub noise_level: NoiseLevel,
    pub subscriptions: Seq<Category>,
}

impl View for Registration {
    type V = RegistrationView;

    open spec fn view(&self) -> RegistrationView {
        RegistrationView {
            name: self.name@,
            noise_level: self.noise_level,
            subscriptions: self.subscriptions@,
        }
    }
}

impl Registration {
    /// What the registry keeps of a task with this name, noise level and
    /// subscriptions: of each subscription its category.
    pub fn new(name: String, noise_level: NoiseLevel, subscribers: &Vec<events::Type>) -> (r:
        Registration)
        ensures
            r@ == (RegistrationView {
                name: name@,
                noise_level,
                subscriptions: categories_of(subscribers@),
            }),
    {
        Registration { name, noise_level, subscriptions: categories(subscribers) }
    }

    /// What the registry keeps of a task, as the task tells it.
    pub fn of<T: Module>(module: &T) -> (r: Registration) {
        let subscribers = module.subscribers();
        Registration::new(module.name(), module.noise_level(), &subscribers)
    }
}

/// The place that a task gets, and the registry after it was offered: a
/// task that is noisier than `tolerance` gets no place and changes nothing.
pub open spec fn registered(
    registry: Seq<RegistrationView>,
    registration: RegistrationView,
    tolerance: NoiseLevel,
) -> (Option<usize>, Seq<RegistrationView>) {
    if registration.noise_level.spec_rank() <= tolerance.spec_rank() {
        (Some(registry.len() as usize), registry.push(registration))
    } else {
        (None, registry)
    }
}

/// The values of a list of registrations, in order.
pub open spec fn registry_of(list: Seq<Registration>) -> Seq<RegistrationView> {
    Seq::new(list.len(), |i: int| list[i]@)
}

/// Whether a task with these subscriptions is launched by an event of the
/// category `event`.
pub open spec fn subscribed(subscriptions: Seq<Category>, event: Category) -> bool {
    exists|i: int|
        0 <= i < subscriptions.len() && subscription_matches(#[trigger] subscriptions[i], event)
}

/// The places in the registry of the tasks that an event of the category
/// `event` launches, in the order of registration.
pub open spec fn targets(registry: Seq<RegistrationView>, event: Category) -> Seq<int>
    decreases registry.len(),
{
    if registry.len() == 0 {
        Seq::empty()
    } else if subscribed(registry.last().subscriptions, event) {
        targets(registry.drop_last(), event).push(registry.len() - 1)
    } else {
        targets(registry.drop_last(), event)
    }
}

/// One task to start: its place in the registry, and what it is told of the
/// event.
pub struct Launch {
    pub module: usize,
    pub context: Context,
}

/// What an event leads to.
pub struct Dispatch {
    /// The tasks to start, in the order of registration.
    pub launches: Vec<Launch>,
    /// Whether the run is over: the last task in flight has finished.
    pub finished: bool,
}

/// One step of a run: the event that was taken from the bus, and what it
/// led to.
pub struct Step {
    pub event: events::Type,
    pub outcome: Dispatch,
}

/// Where the counter of tasks in flight stands after a `FinishedTask`.
pub open spec fn after_finish(active: nat) -> nat {
    if active > 0 {
        (active - 1) as nat
    } else {
        usize::MAX as nat
    }
}

/// Where the counter stands after `count` events `FinishedTask` in a row.
pub open spec fn after_finishes(active: nat, count: nat) -> nat
    decreases count,
{
    if count == 0 {
        active
    } else {
        after_finish(after_finishes(active, (count - 1) as nat))
    }
}

/// A task that the configuration registers.
#[derive(Clone, Copy, Debug, PartialEq, Eq, Structural)]
pub enum Builtin {
    Ready,
    Script,
    DomainTakeover,
    Dork,
    PassiveDNS,
}

/// What the registry keeps of a task of the configuration.
pub open spec fn builtin_registration(which: Builtin) -> RegistrationView {
    match which {
        Builtin::Ready => RegistrationView {
            name: "ready"@,
            noise_level: NoiseLevel::Silent,
            subscriptions: seq![Category::Ready],
        },
        Builtin::DomainTakeover => RegistrationView {
            name: "domain:takeover"@,
            noise_level: NoiseLevel::Medium,
            subscriptions: seq![Category::DiscoveredDomain],
        },
        Builtin::Dork => RegistrationView {
            name: "dork:"@,
            noise_level: NoiseLevel::Medium,
            subscriptions: seq![Category::DiscoveredDomain],
        },
        Builtin::PassiveDNS => RegistrationView {
            name: "dns:passive"@,
            noise_level: NoiseLevel::Medium,
            subscriptions: seq![Category::DiscoveredDomain],
        },
        Builtin::Script => arbitrary(),
    }
}

/// The registry, and the list of what was registered, after one more task
/// has been offered: a task that is absent, or noisier than `tolerance`,
/// changes neither.
pub open spec fn offered(
    so_far: (Seq<Builtin>, Seq<RegistrationView>),
    present: bool,
    which: Builtin,
    registration: RegistrationView,
    tolerance: NoiseLevel,
) -> (Seq<Builtin>, Seq<RegistrationView>) {
    if present && registration.noise_level.spec_rank() <= tolerance.spec_rank() {
        (so_far.0.push(which), so_far.1.push(registration))
    } else {
        so_far
    }
}

pub struct Session {
    args: Args,
    config: Config,
    database: Database,
    state: State,
    bus: Bus,
    modules: Vec<Registration>,
}

/// What an event leads to: `outcome` and `after` are what the dispatcher
/// makes of `event` in the session `before`.
///
/// A `FinishedTask` counts one task as finished and starts nothing; the run
/// is over if the counter has thereby reached zero. Any other event starts
/// every registered task that subscribes to its category, in the order of
/// registration, each with the context of the event, and counts each as in
/// flight. The graph, the registry and what has been announced stay as they
/// are.
pub open spec fn dispatched(
    before: Session,
    event: EventView,
    outcome: Dispatch,
    after: Session,
) -> bool {
    &&& after.database() == before.database()
    &&& after.registry() == before.registry()
    &&& after.args() == before.args()
    &&& after.config() == before.config()
    &&& after.state().same_but_tasks(&before.state())
    &&& event is FinishedTask ==> outcome.launches@.len() == 0 && after.state().active_tasks()
        == after_finish(before.state().active_tasks()) && outcome.finished == (
    after.state().active_tasks() == 0)
    &&& !(event is FinishedTask) ==> !outcome.finished && after.state().active_tasks()
        == before.state().active_tasks() + outcome.launches@.len()
    &&& outcome.launches@.len() == targets(before.registry(), category_of(event)).len()
    &&& forall|i: int|
        0 <= i < outcome.launches@.len() ==> (#[trigger] outcome.launches@[i]).module == targets(
            before.registry(),
            category_of(event),
        )[i] && outcome.launches@[i].context@ == context_of(event)
}

fn is_subscribed(subscriptions: &Vec<Category>, event: Category) -> (r: bool)
    ensures
        r == subscribed(subscriptions@, event),
{
    let n = subscriptions.len();
    let mut i: usize = 0;
    while i < n
        invariant
            i <= n,
            n == subscriptions@.len(),
            forall|j: int| 0 <= j < i ==> !subscription_matches(#[trigger] subscriptions@[j], event),
        decreases n - i,
    {
        if matches_subscription(subscriptions[i], event) {
            return true;
        }
        i += 1;
    }
    false
}

fn categories(events: &Vec<events::Type>) -> (r: Vec<Category>)
    ensures
        r@ == categories_of(events@),
{
    let mut r: Vec<Category> = Vec::new();
    let n = events.len();
    let mut i: usize = 0;
    while i < n
        invariant
            i <= n,
            n == events@.len(),
            r@.len() == i,
            forall|j: int| 0 <= j < i ==> (#[trigger] r@[j]) == category_of(events@[j]@),
        decreases n - i,
    {
        r.push(events[i].category());
        i += 1;
    }
    assert(r@ =~= categories_of(events@));
    r
}

impl Session {
    /// A session at the start of a run: the graph holds the seed domain as
    /// its root, nothing is in flight, no task is registered and no event
    /// waits. `permits` is the size of the admission semaphore, `slots` the
    /// number of events that the bus holds.
    pub fn new(args: Args, config: Config, permits: usize, slots: usize) -> (session: Session)
        ensures
            session.pending() == Seq::<EventView>::empty(),
            session.slots() == slots,
            !session.closed(),
            session.database() == (NodeView {
                kind: Type::Domain,
                value: args.domain@,
                children: Seq::empty(),
                facts: Map::empty(),
            }),
            session.state().active_tasks() == 0,
            session.state().permits() == permits,
            session.state().permits_held() == 0,
            session.state().verbose() == args.verbose,
            session.state().debug() == args.debug,
            session.state().domains() == Set::<Seq<char>>::empty(),
            session.state().emails() == Set::<Seq<char>>::empty(),
            session.registry() == Seq::<RegistrationView>::empty(),
            session.args() == args,
            session.config() == config,
    {
        let root = Node::new(Type::Domain, args.domain.clone());
        let state = State::new(args.verbose, args.debug, permits);
        let session = Session {
            args,
            config,
            database: Database::new(root),
            state,
            bus: Bus::new(slots),
            modules: Vec::new(),
        };
        assert(session.registry() =~= Seq::<RegistrationView>::empty());
        session
    }

    /// The graph.
    pub closed spec fn database(&self) -> NodeView {
        self.database@
    }

    /// The run state.
    pub closed spec fn state(&self) -> State {
        self.state
    }

    /// The registered tasks, in the order of registration.
    pub closed spec fn registry(&self) -> Seq<RegistrationView> {
        registry_of(self.modules@)
    }

    /// The events that wait on the bus, the oldest first.
    pub closed spec fn pending(&self) -> Seq<EventView> {
        self.bus.pending()
    }

    /// The number of events that the bus holds.
    pub closed spec fn slots(&self) -> nat {
        self.bus.capacity()
    }

    /// Whether the bus was closed.
    pub closed spec fn closed(&self) -> bool {
        self.bus.closed()
    }

    /// Whether the two sessions have the same bus, with the same events on
    /// it.
    pub open spec fn same_bus(&self, other: &Session) -> bool {
        &&& self.pending() == other.pending()
        &&& self.slots() == other.slots()
        &&& self.closed() == other.closed()
    }

    /// Whether the two sessions differ at most in the bus.
    pub open spec fn same_but_bus(&self, other: &Session) -> bool {
        &&& self.database() == other.database()
        &&& self.state() == other.state()
        &&& self.registry() == other.registry()
        &&& self.args() == other.args()
        &&& self.config() == other.config()
    }

    pub closed spec fn args(&self) -> Args {
        self.args
    }

    pub closed spec fn config(&self) -> Config {
        self.config
    }

    pub fn get_args(&self) -> (r: &Args)
        ensures
            *r == self.args(),
    {
        &self.args
    }

    pub fn get_config(&self) -> (r: &Config)
        ensures
            *r == self.config(),
    {
        &self.config
    }

    /// The graph, to be written through. Nothing else of the session changes.
    pub fn get_database(&mut self) -> (r: &mut Database)
        ensures
            r@ == old(self).database(),
            final(self).database() == final(r)@,
            final(self).state() == old(self).state(),
            final(self).registry() == old(self).registry(),
            final(self).args() == old(self).args(),
            final(self).config() == old(self).config(),
            final(self).same_bus(old(self)),
    {
        &mut self.database
    }

    /// The graph, to be read.
    pub fn read_database(&self) -> (r: &Database)
        ensures
            r@ == self.database(),
    {
        &self.database
    }

    /// The run state, to be written through. Nothing else of the session
    /// changes.
    pub fn get_state(&mut self) -> (r: &mut State)
        ensures
            *r == old(self).state(),
            final(self).state() == *final(r),
            final(self).database() == old(self).database(),
            final(self).registry() == old(self).registry(),
            final(self).args() == old(self).args(),
            final(self).config() == old(self).config(),
            final(self).same_bus(old(self)),
    {
        &mut self.state
    }

    /// The run state, to be read.
    pub fn read_state(&self) -> (r: &State)
        ensures
            *r == self.state(),
    {
        &self.state
    }

    /// The number of registered tasks.
    pub fn module_count(&self) -> (r: usize)
        ensures
            r == self.registry().len(),
    {
        self.modules.len()
    }

    /// Registers a task by what the registry keeps of it, unless the task
    /// is noisier than the run tolerates. The result is the place of the
    /// task in the registry, by which launches name it, or `None` where the
    /// task was left out.
    pub fn register(&mut self, registration: Registration) -> (place: Option<usize>)
        ensures
            (place, final(self).registry()) == registered(
                old(self).registry(),
                registration@,
                old(self).args().noise_level,
            ),
            final(self).database() == old(self).database(),
            final(self).state() == old(self).state(),
            final(self).args() == old(self).args(),
            final(self).config() == old(self).config(),
            final(self).same_bus(old(self)),
    {
        if !registration.noise_level.within(self.args.noise_level) {
            return None;
        }
        let place = self.modules.len();
        self.modules.push(registration);
        assert(self.registry() =~= old(self).registry().push(registration@));
        Some(place)
    }

    /// Registers a task by what it tells of itself, unless it is noisier
    /// than the run tolerates. The result is the place of the task in the
    /// registry, or `None` where the task was left out. A run that tolerates
    /// `High` leaves no task out. Whatever the task tells, the registry
    /// grows by that task or not at all, and nothing else changes.
    pub fn register_module<T: Module>(&mut self, module: &T) -> (place: Option<usize>)
        ensures
            old(self).args().noise_level == NoiseLevel::High ==> place is Some,
            place is None ==> final(self).registry() == old(self).registry(),
            place is Some ==> place == Some(old(self).registry().len() as usize)
                && final(self).registry().len() == old(self).registry().len() + 1
                && final(self).registry().drop_last() == old(self).registry()
                && final(self).registry().last().noise_level.spec_rank() <= old(
                self,
            ).args().noise_level.spec_rank(),
            final(self).database() == old(self).database(),
            final(self).state() == old(self).state(),
            final(self).args() == old(self).args(),
            final(self).config() == old(self).config(),
            final(self).same_bus(old(self)),
    {
        let registration = Registration::of(module);
        let place = self.register(registration);
        proof {
            if place is Some {
                assert(self.registry().drop_last() =~= old(self).registry());
            }
        }
        place
    }

    /// Registers the tasks of the configuration, in this order: the ready
    /// task; the script, where one is given; then the takeover check, the
    /// search engine task and the certificate lookup, each where the
    /// configuration has a section for it. A task that is noisier than the
    /// run tolerates is left out. The result lists what was registered, in
    /// the order of the places that the tasks got in the registry.
    pub fn register_config_modules(&mut self, script: Option<Registration>) -> (registered: Vec<
        Builtin,
    >)
        ensures
            (registered@, final(self).registry()) == offered(
                offered(
                    offered(
                        offered(
                            offered(
                                (Seq::<Builtin>::empty(), old(self).registry()),
                                true,
                                Builtin::Ready,
                                builtin_registration(Builtin::Ready),
                                old(self).args().noise_level,
                            ),
                            script is Some,
                            Builtin::Script,
                            script->0@,
                            old(self).args().noise_level,
                        ),
                        old(self).config().domain_takeover is Some,
                        Builtin::DomainTakeover,
                        builtin_registration(Builtin::DomainTakeover),
                        old(self).args().noise_level,
                    ),
                    old(self).config().dork is Some,
                    Builtin::Dork,
                    builtin_registration(Builtin::Dork),
                    old(self).args().noise_level,
                ),
                old(self).config().passive_dns is Some,
                Builtin::PassiveDNS,
                builtin_registration(Builtin::PassiveDNS),
                old(self).args().noise_level,
            ),
            final(self).database() == old(self).database(),
            final(self).state() == old(self).state(),
            final(self).args() == old(self).args(),
            final(self).config() == old(self).config(),
            final(self).same_bus(old(self)),
    {
        let mut registered: Vec<Builtin> = Vec::new();
        let ready = ModuleReady::new();
        let described = Registration::new(ready.name(), ready.noise_level(), &ready.subscribers());
        if self.register(described).is_some() {
            registered.push(Builtin::Ready);
        }
        if let Some(described) = script {
            if self.register(described).is_some() {
                registered.push(Builtin::Script);
            }
        }
        if self.config.domain_takeover.is_some() {
            let takeover = ModuleDomainTakeover::new();
            let described = Registration::new(
                takeover.name(),
                takeover.noise_level(),
                &takeover.subscribers(),
            );
            if self.register(described).is_some() {
                registered.push(Builtin::DomainTakeover);
            }
        }
        let dork = match &self.config.dork {
            Some(config) => Some(ModuleDork::new(config.clone())),
            None => None,
        };
        if let Some(module) = dork {
            let described = Registration::new(
                module.name(),
                module.noise_level(),
                &module.subscribers(),
            );
            if self.register(described).is_some() {
                registered.push(Builtin::Dork);
            }
        }
        let passive = match &self.config.passive_dns {
            Some(config) => Some(ModulePassiveDNS::new(config.clone())),
            None => None,
        };
        if let Some(module) = passive {
            let described = Registration::new(
                module.name(),
                module.noise_level(),
                &module.subscribers(),
            );
            if self.register(described).is_some() {
                registered.push(Builtin::PassiveDNS);
            }
        }
        registered
    }

    /// The events that start a run: `Ready`, then the seed domain as a
    /// discovered domain.
    pub fn initial_events(&self) -> (r: Vec<events::Type>)
        ensures
            r@.len() == 2,
            r@[0]@ == EventView::Ready,
            r@[1]@ == EventView::DiscoveredDomain(self.args().domain@),
    {
        let mut r: Vec<events::Type> = Vec::new();
        r.push(events::Type::Ready);
        r.push(events::Type::DiscoveredDomain(self.args.domain.clone()));
        r
    }

    /// The report on the run in Markdown: a title that names the seed
    /// domain, then the report on the graph. `None` where the graph cannot
    /// be reported on.
    pub fn markdown_report(&self) -> (r: Option<String>)
        ensures
            r is Some == renderable(self.database()),
            r is Some ==> r->0@ == "# Analysis Report for '"@ + self.args().domain@
                + "'\n\n## Domains\n\n"@ + markdown_of(self.database()),
    {
        let root = self.database.root();
        if !root.is_renderable() {
            return None;
        }
        let mut r = String::from_str("# Analysis Report for '");
        r.append(self.args.domain.as_str());
        r.append("'\n\n## Domains\n\n");
        r.append(root.to_markdown().as_str());
        Some(r)
    }

    /// The path of the report in JSON, with the home directory filled in.
    pub fn json_result_path(&self, home: &str) -> (r: String)
        ensures
            r@ == expanded(self.args().output@, home@) + "/results.json"@,
    {
        let mut r = self.args.output_path(home);
        r.append("/results.json");
        r
    }

    /// The path of the report in Markdown, with the home directory filled
    /// in.
    pub fn markdown_result_path(&self, home: &str) -> (r: String)
        ensures
            r@ == expanded(self.args().output@, home@) + "/results.md"@,
    {
        let mut r = self.args.output_path(home);
        r.append("/results.md");
        r
    }

    /// Puts an event on the bus, behind those that wait. A closed bus takes
    /// nothing, and says so; a full one neither. Nothing else changes.
    pub fn emit(&mut self, event: events::Type) -> (r: Result<(), EmitError>)
        ensures
            final(self).same_but_bus(old(self)),
            final(self).slots() == old(self).slots(),
            final(self).closed() == old(self).closed(),
            old(self).closed() ==> r == Err::<(), EmitError>(EmitError::Closed),
            !old(self).closed() && old(self).pending().len() >= old(self).slots() ==> r == Err::<
                (),
                EmitError,
            >(EmitError::Full),
            !old(self).closed() && old(self).pending().len() < old(self).slots() ==> r is Ok,
            r is Ok ==> final(self).pending() == old(self).pending().push(event@),
            r is Err ==> final(self).pending() == old(self).pending(),
    {
        self.bus.emit(event)
    }

    /// Starts a run: puts `Ready` on the bus, and behind it the seed domain
    /// as a discovered domain. The bus takes both or none: none where it is
    /// closed, or has fewer than two free slots.
    pub fn start(&mut self) -> (r: Result<(), EmitError>)
        ensures
            final(self).same_but_bus(old(self)),
            final(self).slots() == old(self).slots(),
            final(self).closed() == old(self).closed(),
            old(self).closed() ==> r == Err::<(), EmitError>(EmitError::Closed),
            !old(self).closed() && old(self).pending().len() + 2 > old(self).slots() ==> r == Err::<
                (),
                EmitError,
            >(EmitError::Full),
            !old(self).closed() && old(self).pending().len() + 2 <= old(self).slots() ==> r is Ok,
            r is Ok ==> final(self).pending() == old(self).pending().push(EventView::Ready).push(
                EventView::DiscoveredDomain(old(self).args().domain@),
            ),
            r is Err ==> final(self).pending() == old(self).pending(),
    {
        if self.bus.is_closed() {
            return Err(EmitError::Closed);
        }
        let waiting = self.bus.len();
        let slots = self.bus.slots();
        if slots < 2 || waiting > slots - 2 {
            return Err(EmitError::Full);
        }
        match self.bus.emit(events::Type::Ready) {
            Ok(()) => self.bus.emit(events::Type::DiscoveredDomain(self.args.domain.clone())),
            Err(refusal) => Err(refusal),
        }
    }

    /// Whether an event waits on the bus.
    pub fn has_pending(&self) -> (r: bool)
        ensures
            r == (self.pending().len() > 0),
    {
        !self.bus.is_empty()
    }

    /// Whether the bus was closed.
    pub fn is_closed(&self) -> (r: bool)
        ensures
            r == self.closed(),
    {
        self.bus.is_closed()
    }

    /// Whether the counter of tasks in flight has room for one launch of
    /// every registered task.
    pub fn can_dispatch(&self) -> (r: bool)
        ensures
            r == (self.state().active_tasks() + self.registry().len() <= usize::MAX),
    {
        self.state.active_tasks_count() <= usize::MAX - self.modules.len()
    }

    /// Takes the oldest event from the bus and decides what it leads to;
    /// `None` where no event waits. With the event that ends the run the bus
    /// is closed: whatever is emitted from then on is refused.
    pub fn step(&mut self) -> (r: Option<Step>)
        requires
            old(self).state().active_tasks() + old(self).registry().len() <= usize::MAX,
        ensures
            final(self).slots() == old(self).slots(),
            r is Some == (old(self).pending().len() > 0),
            r is None ==> final(self).same_but_bus(old(self)) && final(self).same_bus(old(self)),
            r is Some ==> r->0.event@ == old(self).pending()[0] && final(self).pending() == old(
                self,
            ).pending().drop_first() && dispatched(
                *old(self),
                r->0.event@,
                r->0.outcome,
                *final(self),
            ) && final(self).closed() == (old(self).closed() || r->0.outcome.finished),
    {
        let received = self.bus.receive();
        match received {
            Some(event) => {
                let outcome = self.dispatch(&event);
                if outcome.finished {
                    self.bus.close();
                }
                Some(Step { event, outcome })
            },
            None => None,
        }
    }

    /// Decides what an event leads to: see [`dispatched`]. The bus is left
    /// as it is.
    pub fn dispatch(&mut self, event: &events::Type) -> (r: Dispatch)
        requires
            old(self).state().active_tasks() + old(self).registry().len() <= usize::MAX,
        ensures
            dispatched(*old(self), event@, r, *final(self)),
            final(self).same_bus(old(self)),
    {
        let category = event.category();
        let mut launches: Vec<Launch> = Vec::new();
        if let Category::FinishedTask = category {
            self.state.decrement_tasks();
            let finished = self.state.active_tasks_count() == 0;
            proof {
                lemma_nothing_for_finished(self.registry());
            }
            return Dispatch { launches, finished };
        }
        let n = self.modules.len();
        let mut i: usize = 0;
        while i < n
            invariant
                i <= n,
                n == self.modules@.len(),
                self.modules == old(self).modules,
                self.bus == old(self).bus,
                self.database == old(self).database,
                self.args == old(self).args,
                self.config == old(self).config,
                self.state.same_but_tasks(&old(self).state),
                category == category_of(event@),
                launches@.len() <= i,
                self.state.active_tasks() == old(self).state.active_tasks() + launches@.len(),
                old(self).state.active_tasks() + n <= usize::MAX,
                launches@.len() == targets(self.registry().take(i as int), category).len(),
                forall|k: int|
                    0 <= k < launches@.len() ==> (#[trigger] launches@[k]).module == targets(
                        self.registry().take(i as int),
                        category,
                    )[k] && launches@[k].context@ == context_of(event@),
            decreases n - i,
        {
            proof {
                let registry = self.registry();
                assert(registry.take(i as int + 1).drop_last() =~= registry.take(i as int));
                assert(registry.take(i as int + 1).last() == self.modules@[i as int]@);
            }
            if is_subscribed(&self.modules[i].subscriptions, category) {
                self.state.increment_tasks();
                launches.push(Launch { module: i, context: get_context_for_event(event) });
            }
            i += 1;
        }
        proof {
            assert(self.registry().take(n as int) =~= self.registry());
        }
        Dispatch { launches, finished: false }
    }
}

/// Where `count` tasks are in flight and none of them causes another launch,
/// the counter is above zero after each of the first `count - 1` events
/// `FinishedTask`, and at zero after the last: the run ends after exactly
/// one `FinishedTask` for each launched task, and not before.
pub proof fn lemma_quiescence(count: nat, seen: nat)
    requires
        seen <= count <= usize::MAX,
    ensures
        after_finishes(count, seen) == count - seen,
        seen < count ==> after_finishes(count, seen) > 0,
        after_finishes(count, count) == 0,
{
    lemma_finishes_count(count, seen);
    lemma_finishes_count(count, count);
}

/// A run in which `count` tasks are in flight and no task causes another
/// launch: the dispatcher sees `count` events `FinishedTask`, one for each
/// task. It declares the run over at the last of them and at none before,
/// and the counter of tasks in flight is back at zero then.
///
/// `sessions[i]` is the session before the event `i`, and `outcomes[i]` what
/// the dispatcher makes of that event.
pub proof fn lemma_run_ends_with_last_finish(
    sessions: Seq<Session>,
    outcomes: Seq<Dispatch>,
    count: nat,
)
    requires
        0 < count <= usize::MAX,
        sessions.len() == count + 1,
        outcomes.len() == count,
        sessions[0].state().active_tasks() == count,
        forall|i: int|
            0 <= i < count ==> dispatched(
                #[trigger] sessions[i],
                EventView::FinishedTask,
                outcomes[i],
                sessions[i + 1],
            ),
    ensures
        forall|i: int| 0 <= i < count - 1 ==> !(#[trigger] outcomes[i]).finished,
        outcomes[count - 1].finished,
        sessions[count as int].state().active_tasks() == 0,
        forall|i: int| 0 <= i < count ==> (#[trigger] outcomes[i]).launches@.len() == 0,
{
    lemma_counter_in_run(sessions, outcomes, count, count);
    assert forall|i: int| 0 <= i < count - 1 implies !(#[trigger] outcomes[i]).finished by {
        lemma_counter_in_run(sessions, outcomes, count, (i + 1) as nat);
        assert(dispatched(sessions[i], EventView::FinishedTask, outcomes[i], sessions[i + 1]));
    }
    assert(dispatched(
        sessions[count - 1],
        EventView::FinishedTask,
        outcomes[count - 1],
        sessions[count - 1 + 1],
    ));
    assert forall|i: int| 0 <= i < count implies (#[trigger] outcomes[i]).launches@.len()
        == 0 by {
        assert(dispatched(sessions[i], EventView::FinishedTask, outcomes[i], sessions[i + 1]));
    }
}

proof fn lemma_counter_in_run(
    sessions: Seq<Session>,
    outcomes: Seq<Dispatch>,
    count: nat,
    seen: nat,
)
    requires
        seen <= count <= usize::MAX,
        sessions.len() == count + 1,
        outcomes.len() == count,
        sessions[0].state().active_tasks() == count,
        forall|i: int|
            0 <= i < count ==> dispatched(
                #[trigger] sessions[i],
                EventView::FinishedTask,
                outcomes[i],
                sessions[i + 1],
            ),
    ensures
        sessions[seen as int].state().active_tasks() == count - seen,
    decreases seen,
{
    if seen > 0 {
        lemma_counter_in_run(sessions, outcomes, count, (seen - 1) as nat);
        assert(dispatched(
            sessions[seen - 1],
            EventView::FinishedTask,
            outcomes[seen - 1],
            sessions[seen - 1 + 1],
        ));
    }
}

proof fn lemma_finishes_count(count: nat, seen: nat)
    requires
        seen <= count <= usize::MAX,
    ensures
        after_finishes(count, seen) == count - seen,
    decreases seen,
{
    if seen > 0 {
        lemma_finishes_count(count, (seen - 1) as nat);
    }
}

/// Nothing subscribes to `FinishedTask`, so such an event starts no task.
pub proof fn lemma_nothing_for_finished(registry: Seq<RegistrationView>)
    ensures
        targets(registry, Category::FinishedTask).len() == 0,
    decreases registry.len(),
{
    if registry.len() > 0 {
        lemma_nothing_for_finished(registry.drop_last());
    }
}

} // verus!
