use absence::config::{
    DorkConfig, EnumerateFilesConfig, EnumerateVhostsConfig, PassiveDNSConfig,
    ScreenshotGrabberConfig,
};
use absence::database::node::{Node, Type};
use absence::events;
use absence::flags;
use absence::modules::banner_grabber::http::HttpBannerGrabber;
use absence::modules::banner_grabber::{Banner, ModuleBannerGrabber};
use absence::modules::domain_takeover::ModuleDomainTakeover;
use absence::modules::dork::{ModuleDork, SearchEngine};
use absence::modules::enumerate_files::{
    default_match_status, status_matches, ModuleEnumerateFiles,
};
use absence::modules::enumerate_subdomains::ModuleEnumerateSubdomains;
use absence::modules::enumerate_vhosts::ModuleEnumerateVhosts;
use absence::modules::lua_script::{noise_level_of, subscription_of, subscriptions_of};
use absence::database::Database;
use absence::helpers::text::split_at_char;
use absence::modules::passive_dns::{certificate_names, strip_wildcard, ModulePassiveDNS};
use absence::modules::port_scanner::port_service::get_service_for_tcp_port;
use absence::modules::ready::ModuleReady;
use absence::modules::screenshot_grabber::ModuleScreenshotGrabber;
use absence::modules::{Module, NoiseLevel};
use serde_json::Value;

fn dork(search_engine: Option<SearchEngine>) -> ModuleDork {
    ModuleDork::new(DorkConfig {
        enabled: true,
        search_engine,
    })
}

fn passive(ignore_expired: Option<bool>, recent_only: Option<bool>) -> ModulePassiveDNS {
    ModulePassiveDNS::new(PassiveDNSConfig {
        enabled: true,
        ignore_expired,
        recent_only,
    })
}

#[test]
fn tasks_tell_of_themselves() {
    let ready = ModuleReady::new();
    assert_eq!(ready.name(), "ready");
    assert_eq!(ready.noise_level(), NoiseLevel::Silent);
    assert_eq!(ready.subscribers(), vec![events::Type::Ready]);
    assert_eq!(
        ready.message(),
        "Project Absence is now ready and will start doing its magic!"
    );
    assert!(!ready.description().is_empty());

    let takeover = ModuleDomainTakeover::new();
    assert_eq!(takeover.name(), "domain:takeover");
    assert_eq!(
        takeover.subscribers(),
        vec![events::Type::DiscoveredDomain(String::new())]
    );
    assert_eq!(
        takeover.name_with_platform(String::from("github")),
        "domain:takeover(github)"
    );
    assert_eq!(takeover.uri("example.com"), "https://example.com");
    assert_eq!(
        takeover.finding("example.com"),
        "Domain takeover possible for 'example.com'"
    );

    let banner = ModuleBannerGrabber::new();
    assert_eq!(banner.name(), "grabber:banner");
    assert_eq!(banner.noise_level(), NoiseLevel::Medium);
    assert_eq!(
        banner.subscribers(),
        vec![events::Type::OpenPort(String::new(), 0)]
    );

    assert_eq!(ModuleEnumerateFiles::noise_level(), NoiseLevel::High);
    assert_eq!(ModuleEnumerateVhosts::noise_level(), NoiseLevel::High);
    let subdomains = ModuleEnumerateSubdomains::new();
    assert_eq!(subdomains.name(), "enumerate:subdomains");
    assert_eq!(subdomains.noise_level(), NoiseLevel::High);
    assert_eq!(subdomains.candidate("example.com", "www"), "www.example.com");

    let passive = passive(None, None);
    assert_eq!(passive.name(), "dns:passive");
    assert_eq!(
        passive.uri("example.com"),
        "https://crt.sh/?q=example.com&output=json"
    );
}

#[test]
fn takeover_is_judged_by_the_content() {
    let takeover = ModuleDomainTakeover::new();
    assert_eq!(
        takeover.detect("<html><h1>Well, you found a glitch.</h1></html>"),
        Some(String::from("glitch"))
    );
    assert_eq!(
        takeover.detect("Not Found - Request ID: 01ABC"),
        Some(String::from("netlify"))
    );
    assert_eq!(takeover.detect("404 Not Found"), Some(String::from("replit")));
    assert_eq!(
        takeover.detect("The deployment could not be found on Vercel."),
        Some(String::from("vercel"))
    );
    assert_eq!(takeover.detect("<html>welcome</html>"), None);
    assert_eq!(takeover.detect(""), None);
}

#[test]
fn dork_addresses_and_patterns() {
    let dork_default = dork(None);
    assert_eq!(dork_default.search_engine(), SearchEngine::Google);
    assert_eq!(SearchEngine::default(), SearchEngine::Google);
    assert_eq!(dork(Some(SearchEngine::Ecosia)).search_engine(), SearchEngine::Ecosia);
    assert_eq!(dork_default.name(), "dork:");
    assert_eq!(
        dork_default.name_with_search_engine(SearchEngine::Ecosia),
        "dork:ecosia"
    );
    assert_eq!(SearchEngine::Google.name(), "google");
    assert_eq!(
        dork_default.domains_uri("example.com", SearchEngine::Google),
        "https://www.google.com/search?q=site%3Aexample.com"
    );
    assert_eq!(
        dork_default.emails_uri("example.com", SearchEngine::Ecosia),
        "https://www.ecosia.org/search?method=index&q=%22@example.com%22"
    );
    assert_eq!(
        dork_default.domains_pattern("example.com"),
        r#"\bhttps://([a-zA-Z0-9.-]+\.example\.com)\b"#
    );
    assert_eq!(
        dork_default.emails_pattern("a+b.c"),
        r#"\b([a-zA-Z0-9](?:[a-zA-Z0-9.+!%\-/]{1,64}|)@a\+b\.c)\b"#
    );
    assert_eq!(
        dork_default.unreachable(SearchEngine::Google),
        "Unable to reach google"
    );
}

#[test]
fn dork_finds_hosts_and_addresses_in_a_page() {
    let dork = dork(None);
    let page = "<a href=\"https://www.example.com/x\">x</a> https://example.org \
                https://mail.example.com and http://plain.example.com \
                https://wwwXexample.com";
    assert_eq!(
        dork.get_domains(page, "example.com"),
        Some(vec![
            String::from("www.example.com"),
            String::from("mail.example.com")
        ])
    );
    assert_eq!(dork.get_domains("nothing here", "example.com"), Some(vec![]));

    let page = "results for %22@example.com%22: write to me@example.com or \
                first.last@example.com, not to you@example.org";
    assert_eq!(
        dork.get_emails(page, "example.com"),
        Some(vec![
            String::from("me@example.com"),
            String::from("first.last@example.com")
        ])
    );
}

#[test]
fn title_of_a_page() {
    let grabber = HttpBannerGrabber::new(String::from("example.com"), 443);
    assert_eq!(grabber.uri(), "https://example.com:443");
    assert_eq!(
        HttpBannerGrabber::new(String::from("example.com"), 80).uri(),
        "http://example.com:80"
    );
    assert_eq!(
        grabber.grab_title_tag(String::from(
            "<html><title>First</title><title>Second</title></html>"
        )),
        Some(String::from("First"))
    );
    assert_eq!(
        grabber.grab_title_tag(String::from("<title></title>")),
        Some(String::new())
    );
    assert_eq!(grabber.grab_title_tag(String::from("<h1>none</h1>")), None);
    assert_eq!(
        grabber.grab_title_tag(String::from("<title>two\nlines</title>")),
        None
    );
}

#[test]
fn banner_of_a_response() {
    let grabber = HttpBannerGrabber::new(String::from("example.com"), 80);
    let banner = grabber.assemble(
        Some(String::from("text/html")),
        None,
        Some(String::from("nginx")),
        Some(String::from("Home")),
    );
    assert_eq!(
        banner.0,
        vec![
            (String::from("content_type"), String::from("text/html")),
            (String::from("server"), String::from("nginx")),
            (String::from("title"), String::from("Home")),
        ]
    );
    let mut expected = serde_json::Map::new();
    expected.insert(String::from("content_type"), Value::from("text/html"));
    expected.insert(String::from("server"), Value::from("nginx"));
    expected.insert(String::from("title"), Value::from("Home"));
    assert_eq!(banner.to_json_value(), Value::Object(expected));
    assert_eq!(
        grabber.assemble(None, None, None, None).to_json_value(),
        Value::Object(serde_json::Map::new())
    );
}

#[test]
fn banners_gather_under_their_ports() {
    let module = ModuleBannerGrabber::new();
    assert!(module.grabber_for(String::from("example.com"), 80).is_some());
    assert!(module.grabber_for(String::from("example.com"), 443).is_some());
    assert!(module.grabber_for(String::from("example.com"), 22).is_none());
    assert_eq!(
        module.unsupported(22),
        "Banner grabber for port 22 has not been implemented."
    );

    let mut node = Node::new(Type::Hostname, String::from("example.com"));
    assert!(node.holds_object_or_nothing("banners"));
    let first = Banner(vec![(String::from("server"), String::from("nginx"))]);
    module.record(&mut node, 80, &first);
    let second = Banner(vec![(String::from("server"), String::from("apache"))]);
    module.record(&mut node, 443, &second);

    let mut on_80 = serde_json::Map::new();
    on_80.insert(String::from("server"), Value::from("nginx"));
    let mut on_443 = serde_json::Map::new();
    on_443.insert(String::from("server"), Value::from("apache"));
    let mut all = serde_json::Map::new();
    all.insert(String::from("80"), Value::Object(on_80));
    all.insert(String::from("443"), Value::Object(on_443));
    assert_eq!(node.get_data("banners"), Some(&Value::Object(all)));

    node.add_data(String::from("ip"), Value::from("127.0.0.1"));
    assert!(node.holds_object_or_nothing("ip") == false);
    assert!(node.holds_object_or_nothing("missing"));
}

#[test]
fn object_is_made_where_there_is_none() {
    let mut node = Node::new(Type::Hostname, String::from("example.com"));
    let empty = node.get_or_init_map("banners");
    assert_eq!(empty, Value::Object(serde_json::Map::new()));
    assert_eq!(node.get_data("banners"), Some(&empty));
    let mut filled = serde_json::Map::new();
    filled.insert(String::from("k"), Value::from(1u64));
    node.add_data(String::from("banners"), Value::Object(filled.clone()));
    assert_eq!(node.get_or_init_map("banners"), Value::Object(filled));
}

#[test]
fn certificates_are_classified() {
    let day: i64 = 86400;
    let now: i64 = 1_700_000_000;
    let all = passive(None, None);
    // In force for a year, issued long ago.
    assert_eq!(all.classify(now - 100 * day, now + 265 * day, now), Some(flags::ZERO));
    // Expired.
    assert_eq!(
        all.classify(now - 100 * day, now - 1, now),
        Some(flags::domain::HAS_EXPIRED)
    );
    // Expires this very second: not expired.
    assert_eq!(all.classify(now - 100 * day, now, now), Some(flags::ZERO));
    // Issued within the last 24 hours, both ends included.
    assert_eq!(
        all.classify(now - day, now + day, now),
        Some(flags::domain::IS_RECENT)
    );
    assert_eq!(all.classify(now, now + day, now), Some(flags::domain::IS_RECENT));
    assert_eq!(all.classify(now - day - 1, now + day, now), Some(flags::ZERO));
    // Not yet valid.
    assert_eq!(all.classify(now + 1, now + day, now), Some(flags::ZERO));
    // Both.
    assert_eq!(all.classify(now - 10, now - 5, now), Some(3));

    let in_force = passive(Some(true), Some(false));
    assert_eq!(in_force.classify(now - 100 * day, now - 1, now), None);
    assert_eq!(in_force.classify(now - 100 * day, now + 1, now), Some(0));

    let recent = passive(None, Some(true));
    assert_eq!(recent.classify(now - 2 * day, now + day, now), None);
    assert_eq!(recent.classify(now - 10, now - 5, now), Some(3));
    assert_eq!(recent.classify(now - 10, now + 5, now), Some(1));

    assert_eq!(all.classify(i64::MIN, i64::MAX, i64::MIN), Some(1));
}

#[test]
fn looked_up_domains_are_remembered() {
    let mut module = passive(None, None);
    assert!(!module.has_processed(String::from("example.com")));
    module.process(String::from("example.com"));
    assert!(module.has_processed(String::from("example.com")));
    assert!(!module.has_processed(String::from("example.org")));
    assert_eq!(strip_wildcard("*.example.com"), "example.com");
    assert_eq!(strip_wildcard("www.example.com"), "www.example.com");
    assert_eq!(strip_wildcard("*."), "");
    assert_eq!(strip_wildcard("*"), "*");
    assert_eq!(strip_wildcard("*.*.example.com"), "*.example.com");
}

#[test]
fn files_and_hosts_that_are_tried() {
    let files = ModuleEnumerateFiles::new(EnumerateFilesConfig {
        match_status: None,
        wordlist: None,
        files_extension: None,
    });
    assert_eq!(files.name(), "enumerate:files");
    assert_eq!(files.extension(), "php");
    assert_eq!(files.target("example.com", "admin"), "example.com/admin.php");
    assert_eq!(files.wordlist("/words"), "/words");
    let statuses = files.match_status().unwrap();
    assert_eq!(statuses.len(), 107);
    assert_eq!(statuses, default_match_status());
    assert_eq!(statuses[0], 200);
    assert_eq!(statuses[99], 299);
    assert_eq!(&statuses[100..], &[301, 302, 307, 401, 403, 405, 500]);
    assert!(status_matches(&statuses, 204));
    assert!(status_matches(&statuses, 500));
    assert!(!status_matches(&statuses, 404));
    assert!(!status_matches(&statuses, 300));

    let files = ModuleEnumerateFiles::new(EnumerateFilesConfig {
        match_status: Some(String::from("200,300-302")),
        wordlist: Some(String::from("/other")),
        files_extension: Some(String::new()),
    });
    assert_eq!(files.target("example.com", "admin"), "example.com/admin");
    assert_eq!(files.wordlist("/words"), "/other");
    assert_eq!(files.match_status(), Some(vec![200, 300, 301, 302]));

    let files = ModuleEnumerateFiles::new(EnumerateFilesConfig {
        match_status: Some(String::from("200;300")),
        wordlist: None,
        files_extension: Some(String::from("html")),
    });
    assert_eq!(files.match_status(), None);
    assert_eq!(files.target("example.com", "index"), "example.com/index.html");

    let vhosts = ModuleEnumerateVhosts::new(EnumerateVhostsConfig {
        match_status: Some(String::from("401-403")),
        wordlist: None,
    });
    assert_eq!(vhosts.name(), "enumerate:vhosts");
    assert_eq!(vhosts.vhost("example.com", "dev"), "dev.example.com");
    assert_eq!(vhosts.match_status(), Some(vec![401, 402, 403]));
    assert_eq!(vhosts.wordlist("/words"), "/words");
}

#[test]
fn screenshots_as_files_or_in_the_graph() {
    let as_file = ModuleScreenshotGrabber::new(ScreenshotGrabberConfig {
        chrome_path: None,
        save_as_file: Some(true),
    });
    assert!(as_file.saves_as_file());
    assert_eq!(as_file.name(), "grabber:screenshot");
    assert_eq!(as_file.uri("example.com"), "https://example.com");
    let path = as_file.screenshot_path("~/.absence", "/home/me", "example.com");
    assert_eq!(path, "/home/me/.absence/screenshots/example.com.png");
    assert_eq!(as_file.fact(path.clone(), &vec![1, 2, 3]), Some(path.clone()));

    let in_graph = ModuleScreenshotGrabber::new(ScreenshotGrabberConfig {
        chrome_path: None,
        save_as_file: None,
    });
    assert!(!in_graph.saves_as_file());
    assert_eq!(
        in_graph.fact(path, &vec![1, 2, 3]),
        Some(String::from("AQID"))
    );
}

#[test]
fn services_behind_ports() {
    assert_eq!(get_service_for_tcp_port(22), "ssh");
    assert_eq!(get_service_for_tcp_port(80), "http");
    assert_eq!(get_service_for_tcp_port(443), "https");
    assert_eq!(get_service_for_tcp_port(8443), "https");
    assert_eq!(get_service_for_tcp_port(6665), "irc");
    assert_eq!(get_service_for_tcp_port(25565), "minecraft");
    assert_eq!(get_service_for_tcp_port(8000), "unknown");
    assert_eq!(get_service_for_tcp_port(0), "unknown");
}

#[test]
fn words_of_a_script() {
    assert_eq!(noise_level_of("None"), NoiseLevel::Silent);
    assert_eq!(noise_level_of("Low"), NoiseLevel::Low);
    assert_eq!(noise_level_of("High"), NoiseLevel::High);
    assert_eq!(noise_level_of("Medium"), NoiseLevel::Medium);
    assert_eq!(noise_level_of("loud"), NoiseLevel::Medium);
    assert_eq!(subscription_of("Ready"), Some(events::Type::Ready));
    assert_eq!(subscription_of("ready"), None);
    assert_eq!(
        subscriptions_of(&vec![
            String::from("OpenPort"),
            String::from("FinishedTask"),
            String::from("DiscoveredDomain"),
        ]),
        vec![
            events::Type::OpenPort(String::new(), 0),
            events::Type::DiscoveredDomain(String::new()),
        ]
    );
}

#[test]
fn names_of_a_certificate() {
    assert_eq!(
        certificate_names("*.example.com\nexample.com\nwww.example.com", "example.com"),
        vec![String::from("www.example.com")]
    );
    assert_eq!(
        certificate_names("a.example.com\n*.b.example.com", "example.com"),
        vec![String::from("a.example.com"), String::from("b.example.com")]
    );
    assert_eq!(certificate_names("example.com", "example.com"), Vec::<String>::new());
    assert_eq!(certificate_names("", "example.com"), vec![String::new()]);
    assert_eq!(split_at_char("a,b,,c", ','), vec!["a", "b", "", "c"]);
    assert_eq!(split_at_char("", ','), vec![""]);
    assert_eq!(split_at_char(",", ','), vec!["", ""]);
    assert_eq!(split_at_char("né,é", ','), vec!["né", "é"]);
}

#[test]
fn finding_is_written_to_the_node_of_the_domain() {
    let takeover = ModuleDomainTakeover::new();
    let mut root = Node::new(Type::Domain, String::from("example.com"));
    let mut old = Node::new(Type::Domain, String::from("old.example.com"));
    old.add_flag(flags::domain::HAS_EXPIRED);
    root.connect(old);
    let mut database = Database::new(root);
    assert!(takeover.record(
        &mut database,
        String::from("old.example.com"),
        String::from("heroku")
    ));
    assert!(!takeover.record(
        &mut database,
        String::from("new.example.com"),
        String::from("heroku")
    ));
    let children = database.root().get_connections();
    assert_eq!(
        children[0].get_data("possible_takeover"),
        Some(&Value::from("heroku"))
    );
    assert_eq!(children[0].flags(), 6);
    assert_eq!(database.root().get_data("possible_takeover"), None);
    assert_eq!(database.root().flags(), 0);
}
