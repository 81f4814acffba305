use absence::args::Args;
use absence::bus::{Bus, EmitError};
use absence::config::{Config, DomainTakeoverConfig, DorkConfig, PassiveDNSConfig};
use absence::database::node::{Node, Type};
use absence::events;
use absence::events::Category;
use absence::modules::ready::ModuleReady;
use absence::modules::{get_context_for_event, Context, Module, NoiseLevel};
use absence::session::{Builtin, Registration, Session};

fn args(domain: &str, noise_level: NoiseLevel) -> Args {
    Args {
        domain: String::from(domain),
        wordlist: String::from("/usr/share/wordlists/discovery/common.txt"),
        config: String::from("~/.absence/config.toml"),
        output: String::from("~/.absence"),
        script: None,
        version: false,
        debug: false,
        verbose: false,
        noise_level,
    }
}

fn no_config() -> Config {
    Config {
        domain_takeover: None,
        dork: None,
        passive_dns: None,
    }
}

struct Probe {
    name: &'static str,
    level: NoiseLevel,
    subscribers: Vec<events::Type>,
}

impl Module for Probe {
    fn name(&self) -> String {
        String::from(self.name)
    }

    fn description(&self) -> String {
        String::from("a task of a test")
    }

    fn noise_level(&self) -> NoiseLevel {
        self.level
    }

    fn subscribers(&self) -> Vec<events::Type> {
        self.subscribers.clone()
    }
}

fn on_domains(name: &'static str) -> Probe {
    Probe {
        name,
        level: NoiseLevel::Low,
        subscribers: vec![events::Type::DiscoveredDomain(String::new())],
    }
}

#[test]
fn run_starts_with_ready_and_the_seed() {
    let session = Session::new(args("example.com", NoiseLevel::High), no_config(), 4, 100);
    assert_eq!(
        session.initial_events(),
        vec![
            events::Type::Ready,
            events::Type::DiscoveredDomain(String::from("example.com"))
        ]
    );
    assert_eq!(session.read_database().root().value(), "example.com");
    assert_eq!(session.read_database().root().kind(), Type::Domain);
    assert_eq!(session.read_database().root().connection_count(), 0);
    assert_eq!(session.read_state().active_tasks_count(), 0);
    assert_eq!(session.read_state().available_permits(), 4);
    assert_eq!(session.module_count(), 0);
    assert_eq!(session.get_args().domain, "example.com");
    assert!(session.get_config().dork.is_none());
}

#[test]
fn end_to_end_discovery_of_one_host() {
    let mut session = Session::new(args("example.com", NoiseLevel::High), no_config(), 4, 100);
    let ready = session.register_module(&ModuleReady::new()).unwrap();
    let finder = session.register_module(&on_domains("finder")).unwrap();
    assert_eq!((ready, finder), (0, 1));

    for event in session.initial_events() {
        assert_eq!(session.emit(event), Ok(()));
    }
    let mut seen: Vec<events::Type> = Vec::new();
    let mut finished_at: Option<usize> = None;
    while session.has_pending() {
        assert!(session.can_dispatch());
        let step = session.step().unwrap();
        seen.push(step.event);
        for launch in step.outcome.launches {
            if launch.module == finder {
                if launch.context == Context::Domain(String::from("example.com")) {
                    let fresh = session
                        .get_state()
                        .mark_domain(String::from("www.example.com"));
                    assert!(fresh);
                    let parent = session
                        .get_database()
                        .search(Type::Domain, String::from("example.com"))
                        .unwrap();
                    parent.connect(Node::new(Type::Hostname, String::from("www.example.com")));
                    let found = events::Type::DiscoveredDomain(String::from("www.example.com"));
                    assert_eq!(session.emit(found), Ok(()));
                }
            } else {
                assert_eq!(launch.module, ready);
                assert_eq!(launch.context, Context::Nothing);
            }
            assert_eq!(session.emit(events::Type::FinishedTask), Ok(()));
        }
        if step.outcome.finished {
            finished_at = Some(seen.len());
        }
    }

    assert_eq!(
        seen,
        vec![
            events::Type::Ready,
            events::Type::DiscoveredDomain(String::from("example.com")),
            events::Type::FinishedTask,
            events::Type::DiscoveredDomain(String::from("www.example.com")),
            events::Type::FinishedTask,
            events::Type::FinishedTask,
        ]
    );
    assert_eq!(finished_at, Some(6));
    assert!(session.is_closed());
    assert_eq!(
        session.emit(events::Type::Ready),
        Err(EmitError::Closed)
    );
    assert!(session.step().is_none());
    assert_eq!(session.read_state().active_tasks_count(), 0);

    let mut expected = Node::new(Type::Domain, String::from("example.com"));
    expected.add(Type::Hostname, String::from("www.example.com"));
    assert!(session.read_database().root().equals(&expected));
    assert_eq!(session.read_database().root().connection_count(), 1);
}

#[test]
fn bus_keeps_the_order_and_its_bound() {
    let mut bus = Bus::new(2);
    assert!(bus.is_empty());
    assert_eq!(bus.receive(), None);
    assert_eq!(bus.emit(events::Type::Ready), Ok(()));
    assert_eq!(
        bus.emit(events::Type::DiscoveredDomain(String::from("a"))),
        Ok(())
    );
    assert!(bus.is_full());
    assert_eq!(bus.emit(events::Type::FinishedTask), Err(EmitError::Full));
    assert_eq!(bus.len(), 2);
    assert_eq!(bus.receive(), Some(events::Type::Ready));
    assert_eq!(bus.emit(events::Type::FinishedTask), Ok(()));
    // The same event may wait twice.
    assert_eq!(bus.receive(), Some(events::Type::DiscoveredDomain(String::from("a"))));
    assert_eq!(bus.emit(events::Type::FinishedTask), Ok(()));
    bus.close();
    assert!(bus.is_closed());
    assert_eq!(bus.emit(events::Type::Ready), Err(EmitError::Closed));
    assert_eq!(bus.receive(), Some(events::Type::FinishedTask));
    assert_eq!(bus.receive(), Some(events::Type::FinishedTask));
    assert_eq!(bus.receive(), None);

    let mut none = Bus::new(0);
    assert_eq!(none.emit(events::Type::Ready), Err(EmitError::Full));
}

#[test]
fn step_takes_nothing_from_an_empty_bus() {
    let mut session = Session::new(args("example.com", NoiseLevel::High), no_config(), 1, 1);
    assert!(!session.has_pending());
    assert!(session.step().is_none());
    assert_eq!(session.emit(events::Type::Ready), Ok(()));
    assert_eq!(session.emit(events::Type::Ready), Err(EmitError::Full));
    let step = session.step().unwrap();
    assert_eq!(step.event, events::Type::Ready);
    assert!(step.outcome.launches.is_empty());
    assert!(!step.outcome.finished);
    assert!(!session.is_closed());
}

#[test]
fn two_subscribers_are_both_launched_once() {
    let mut session = Session::new(args("example.com", NoiseLevel::High), no_config(), 2, 100);
    let first = session.register_module(&on_domains("first")).unwrap();
    let second = session.register_module(&on_domains("second")).unwrap();
    let event = events::Type::DiscoveredDomain(String::from("example.com"));
    let outcome = session.dispatch(&event);
    assert!(!outcome.finished);
    let places: Vec<usize> = outcome.launches.iter().map(|l| l.module).collect();
    assert_eq!(places, vec![first, second]);
    for launch in &outcome.launches {
        assert_eq!(
            launch.context,
            Context::Domain(String::from("example.com"))
        );
    }
    assert_eq!(session.read_state().active_tasks_count(), 2);

    let after_one = session.dispatch(&events::Type::FinishedTask);
    assert!(after_one.launches.is_empty());
    assert!(!after_one.finished);
    assert_eq!(session.read_state().active_tasks_count(), 1);

    let after_two = session.dispatch(&events::Type::FinishedTask);
    assert!(after_two.launches.is_empty());
    assert!(after_two.finished);
    assert_eq!(session.read_state().active_tasks_count(), 0);
}

#[test]
fn quiescence_after_one_finish_for_each_launch() {
    let mut session = Session::new(args("example.com", NoiseLevel::High), no_config(), 1, 100);
    for name in ["a", "b", "c", "d", "e"] {
        session.register_module(&on_domains(name)).unwrap();
    }
    let launched = session
        .dispatch(&events::Type::DiscoveredDomain(String::from("example.com")))
        .launches
        .len();
    assert_eq!(launched, 5);
    let mut finishes = 0;
    loop {
        finishes += 1;
        if session.dispatch(&events::Type::FinishedTask).finished {
            break;
        }
    }
    assert_eq!(finishes, launched);
    assert_eq!(session.read_state().active_tasks_count(), 0);
}

#[test]
fn matching_goes_by_category_alone() {
    let mut session = Session::new(args("example.com", NoiseLevel::High), no_config(), 1, 100);
    let ports = Probe {
        name: "ports",
        level: NoiseLevel::Medium,
        subscribers: vec![events::Type::OpenPort(String::from("placeholder"), 1)],
    };
    let both = Probe {
        name: "both",
        level: NoiseLevel::Medium,
        subscribers: vec![
            events::Type::Ready,
            events::Type::OpenPort(String::new(), 0),
            events::Type::FinishedTask,
        ],
    };
    session.register_module(&ports).unwrap();
    session.register_module(&on_domains("domains")).unwrap();
    session.register_module(&both).unwrap();

    let open = events::Type::OpenPort(String::from("www.example.com"), 443);
    let outcome = session.dispatch(&open);
    let places: Vec<usize> = outcome.launches.iter().map(|l| l.module).collect();
    assert_eq!(places, vec![0, 2]);
    assert_eq!(
        outcome.launches[0].context,
        Context::OpenPort(String::from("www.example.com"), 443)
    );

    let places: Vec<usize> = session
        .dispatch(&events::Type::Ready)
        .launches
        .iter()
        .map(|l| l.module)
        .collect();
    assert_eq!(places, vec![2]);
    assert_eq!(session.read_state().active_tasks_count(), 3);

    // Nothing is launched by a finished task, whatever a task subscribes to.
    let outcome = session.dispatch(&events::Type::FinishedTask);
    assert!(outcome.launches.is_empty());
    assert_eq!(session.read_state().active_tasks_count(), 2);
}

#[test]
fn finish_with_nothing_in_flight_wraps_round() {
    let mut session = Session::new(args("example.com", NoiseLevel::High), no_config(), 1, 100);
    let outcome = session.dispatch(&events::Type::FinishedTask);
    assert!(!outcome.finished);
    assert_eq!(session.read_state().active_tasks_count(), usize::MAX);
}

#[test]
fn noisy_tasks_are_left_out() {
    let mut session = Session::new(args("example.com", NoiseLevel::Low), no_config(), 1, 100);
    let loud = Probe {
        name: "loud",
        level: NoiseLevel::Medium,
        subscribers: vec![events::Type::Ready],
    };
    assert_eq!(session.register_module(&loud), None);
    assert_eq!(session.module_count(), 0);
    assert_eq!(session.register_module(&on_domains("low")), Some(0));
    assert_eq!(session.register_module(&ModuleReady::new()), Some(1));
    assert!(session.dispatch(&events::Type::Ready).launches.len() == 1);
    assert!(NoiseLevel::Silent.within(NoiseLevel::Silent));
    assert!(!NoiseLevel::High.within(NoiseLevel::Medium));
    assert_eq!(NoiseLevel::default(), NoiseLevel::Medium);
    assert_eq!(NoiseLevel::High.rank(), 3);
}

#[test]
fn configured_tasks_are_registered_in_order() {
    let config = Config {
        domain_takeover: Some(DomainTakeoverConfig { enabled: true }),
        dork: None,
        passive_dns: Some(PassiveDNSConfig {
            enabled: true,
            ignore_expired: None,
            recent_only: None,
        }),
    };
    let mut session = Session::new(args("example.com", NoiseLevel::High), config, 1, 100);
    let script = Registration::of(&on_domains("lua:script"));
    assert_eq!(script.name, "lua:script");
    assert_eq!(script.noise_level, NoiseLevel::Low);
    assert_eq!(script.subscriptions, vec![Category::DiscoveredDomain]);
    let registered = session.register_config_modules(Some(script));
    assert_eq!(
        registered,
        vec![
            Builtin::Ready,
            Builtin::Script,
            Builtin::DomainTakeover,
            Builtin::PassiveDNS
        ]
    );
    assert_eq!(session.module_count(), 4);
    let places: Vec<usize> = session
        .dispatch(&events::Type::DiscoveredDomain(String::from("example.com")))
        .launches
        .iter()
        .map(|l| l.module)
        .collect();
    assert_eq!(places, vec![1, 2, 3]);

    let config = Config {
        domain_takeover: None,
        dork: Some(DorkConfig {
            enabled: false,
            search_engine: None,
        }),
        passive_dns: None,
    };
    let mut quiet = Session::new(args("example.com", NoiseLevel::Low), config, 1, 100);
    assert_eq!(quiet.register_config_modules(None), vec![Builtin::Ready]);
    let described = Registration::new(
        String::from("x"),
        NoiseLevel::Silent,
        &vec![
            events::Type::OpenPort(String::from("h"), 1),
            events::Type::Ready,
        ],
    );
    assert_eq!(
        described.subscriptions,
        vec![Category::OpenPort, Category::Ready]
    );
    assert_eq!(quiet.register(described), Some(1));
}

#[test]
fn context_of_each_event() {
    assert_eq!(
        get_context_for_event(&events::Type::DiscoveredDomain(String::from("a.b"))),
        Context::Domain(String::from("a.b"))
    );
    assert_eq!(
        get_context_for_event(&events::Type::OpenPort(String::from("a.b"), 22)),
        Context::OpenPort(String::from("a.b"), 22)
    );
    assert_eq!(get_context_for_event(&events::Type::Ready), Context::Nothing);
    assert_eq!(
        get_context_for_event(&events::Type::FinishedTask),
        Context::Nothing
    );
}

#[test]
fn events_have_names_and_categories() {
    assert_eq!(events::Type::Ready.name(), "ready");
    assert_eq!(events::Type::FinishedTask.name(), "finished:task");
    assert_eq!(
        events::Type::DiscoveredDomain(String::from("x")).name(),
        "discovered:domain"
    );
    assert_eq!(
        events::Type::OpenPort(String::from("x"), 1).name(),
        "open:port"
    );
    assert_eq!(
        events::Type::OpenPort(String::from("x"), 1).category(),
        Category::OpenPort
    );
    let event = events::Type::OpenPort(String::from("x"), 1);
    assert_eq!(event.duplicate(), event);
    assert!(events::matches_subscription(
        Category::Ready,
        Category::Ready
    ));
    assert!(!events::matches_subscription(
        Category::FinishedTask,
        Category::FinishedTask
    ));
    assert!(!events::matches_subscription(
        Category::OpenPort,
        Category::DiscoveredDomain
    ));
}

#[test]
fn report_names_the_seed_and_walks_the_graph() {
    let mut session = Session::new(args("example.com", NoiseLevel::High), no_config(), 1, 100);
    {
        let root = session.get_database().get_root();
        let mut www = Node::new(Type::Domain, String::from("www.example.com"));
        www.add_flag(absence::flags::domain::HAS_EXPIRED);
        root.connect(www);
        let mut old = Node::new(Type::Domain, String::from("old.example.com"));
        old.add_flag(absence::flags::domain::POSSIBLE_TAKEOVER);
        old.add_data(
            String::from("possible_takeover"),
            serde_json::Value::from("github"),
        );
        root.connect(old);
    }
    let expected = "# Analysis Report for 'example.com'\n\n## Domains\n\n### example.com\n\n### www.example.com\n\n#### Flags\n\n- `IS_RECENT` => ❌\n- `HAS_EXPIRED` => ✅\n- `POSSIBLE_TAKEOVER` => ❌\n\n### old.example.com\n\n#### Flags\n\n- `IS_RECENT` => ❌\n- `HAS_EXPIRED` => ❌\n- `POSSIBLE_TAKEOVER` => ✅ (Platform: `github`)";
    assert_eq!(session.markdown_report(), Some(String::from(expected)));
    assert_eq!(
        session.json_result_path("/home/me"),
        "/home/me/.absence/results.json"
    );
    assert_eq!(
        session.markdown_result_path("/home/me"),
        "/home/me/.absence/results.md"
    );

    session
        .get_database()
        .get_root()
        .add_data(String::from("flags"), serde_json::Value::from("many"));
    assert_eq!(session.markdown_report(), None);
}

#[test]
fn start_puts_both_events_on_the_bus_or_none() {
    let mut session = Session::new(args("example.com", NoiseLevel::High), no_config(), 1, 2);
    assert_eq!(session.start(), Ok(()));
    assert_eq!(session.start(), Err(EmitError::Full));
    assert_eq!(session.step().unwrap().event, events::Type::Ready);
    assert_eq!(session.start(), Err(EmitError::Full));
    assert_eq!(
        session.step().unwrap().event,
        events::Type::DiscoveredDomain(String::from("example.com"))
    );
    assert!(!session.has_pending());

    let mut narrow = Session::new(args("example.com", NoiseLevel::High), no_config(), 1, 1);
    assert_eq!(narrow.start(), Err(EmitError::Full));
    assert!(!narrow.has_pending());
}

#[test]
fn run_that_tolerates_everything_leaves_no_task_out() {
    let mut session = Session::new(args("example.com", NoiseLevel::High), no_config(), 1, 100);
    let levels = [
        NoiseLevel::High,
        NoiseLevel::Silent,
        NoiseLevel::Medium,
        NoiseLevel::Low,
    ];
    for (place, level) in levels.into_iter().enumerate() {
        let probe = Probe {
            name: "probe",
            level,
            subscribers: vec![],
        };
        assert_eq!(session.register_module(&probe), Some(place));
    }
    assert_eq!(session.module_count(), 4);
}
