//! What the dispatcher needs to know of a discovery task, and the context
//! that it hands to one.
use crate::events;
use crate::events::EventView;
use vstd::prelude::*;

pub mod banner_grabber;
pub mod domain_takeover;
pub mod dork;
pub mod enumerate_files;
pub mod enumerate_subdomains;
pub mod enumerate_vhosts;
pub mod lua_script;
pub mod passive_dns;
pub mod port_scanner;
pub mod ready;
pub mod screenshot_grabber;

verus! {

/// What a task is told of the event that launched it.
#[derive(Clone, Debug, PartialEq, Eq)]
pub enum Context {
    Domain(String),
    OpenPort(String, usize),
    Nothing,
}

pub enum ContextView {
    Domain(Seq<char>),
    OpenPort(Seq<char>, usize),
    Nothing,
}

impl View for Context {
    type V = ContextView;

    open spec fn view(&self) -> ContextView {
        match self {
            Context::Domain(domain) => ContextView::Domain(domain@),
            Context::OpenPort(host, port) => ContextView::OpenPort(host@, *port),
            Context::Nothing => ContextView::Nothing,
        }
    }
}

/// The context that an event gives: the domain of a discovered domain, the
/// host and port of an open port, and nothing for the other events.
pub open spec fn context_of(event: EventView) -> ContextView {
    match event {
        EventView::DiscoveredDomain(domain) => ContextView::Domain(domain),
        EventView::OpenPort(host, port) => ContextView::OpenPort(host, port),
        _ => ContextView::Nothing,
    }
}

pub fn get_context_for_event(event: &events::Type) -> (context: Context)
    ensures
        context@ == context_of(event@),
{
    match event {
        events::Type::DiscoveredDomain(domain) => Context::Domain(domain.clone()),
        events::Type::OpenPort(host, port) => Context::OpenPort(host.clone(), *port),
        _ => Context::Nothing,
    }
}

/// How aggressive a task is, and so how easily its traffic is noticed.
#[derive(Clone, Copy, Debug, PartialEq, Eq, Structural)]
pub enum NoiseLevel {
    Silent,
    Low,
    Medium,
    High,
}

impl NoiseLevel {
    pub open spec fn spec_rank(&self) -> int {
        match self {
            NoiseLevel::Silent => 0,
            NoiseLevel::Low => 1,
            NoiseLevel::Medium => 2,
            NoiseLevel::High => 3,
        }
    }

    /// The place of the level in the order Silent, Low, Medium, High.
    pub fn rank(&self) -> (r: u8)
        ensures
            r == self.spec_rank(),
    {
        match self {
            NoiseLevel::Silent => 0,
            NoiseLevel::Low => 1,
            NoiseLevel::Medium => 2,
            NoiseLevel::High => 3,
        }
    }

    /// Whether a task of this level may run under the tolerance `limit`.
    pub fn within(&self, limit: NoiseLevel) -> (r: bool)
        ensures
            r == (self.spec_rank() <= limit.spec_rank()),
    {
        self.rank() <= limit.rank()
    }
}

impl Default for NoiseLevel {
    fn default() -> (r: NoiseLevel)
        ensures
            r == NoiseLevel::Medium,
    {
        NoiseLevel::Medium
    }
}

/// What every discovery task tells of itself. Running a task is no part of
/// it: a task runs outside the dispatcher, on a thread of its own.
pub trait Module {
    /// The name under which the task is logged.
    fn name(&self) -> (r: String);

    fn description(&self) -> (r: String);

    /// How noisy the task is. A task that is noisier than a run tolerates is
    /// not registered.
    fn noise_level(&self) -> (r: NoiseLevel);

    /// The events that launch the task. Only the category of each counts;
    /// the payloads are placeholders.
    fn subscribers(&self) -> (r: Vec<events::Type>);
}

} // verus!
