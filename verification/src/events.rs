//! The events that flow over the bus: a closed set.
use vstd::prelude::*;

verus! {

#[derive(Clone, Debug, Eq, Hash, PartialEq)]
pub enum Type {
    Ready,
    FinishedTask,
    /// The discovered domain.
    DiscoveredDomain(String),
    /// The host name and the port that is open.
    OpenPort(String, usize),
}

/// What an event is without its payload. Tasks subscribe to categories.
#[derive(Clone, Copy, Debug, PartialEq, Eq, Structural)]
pub enum Category {
    Ready,
    FinishedTask,
    DiscoveredDomain,
    OpenPort,
}

/// The mathematical value of an event.
pub enum EventView {
    Ready,
    FinishedTask,
    DiscoveredDomain(Seq<char>),
    OpenPort(Seq<char>, usize),
}

impl View for Type {
    type V = EventView;

    open spec fn view(&self) -> EventView {
        match self {
            Type::Ready => EventView::Ready,
            Type::FinishedTask => EventView::FinishedTask,
            Type::DiscoveredDomain(domain) => EventView::DiscoveredDomain(domain@),
            Type::OpenPort(host, port) => EventView::OpenPort(host@, *port),
        }
    }
}

pub open spec fn category_of(event: EventView) -> Category {
    match event {
        EventView::Ready => Category::Ready,
        EventView::FinishedTask => Category::FinishedTask,
        EventView::DiscoveredDomain(_) => Category::DiscoveredDomain,
        EventView::OpenPort(_, _) => Category::OpenPort,
    }
}

pub open spec fn name_of(category: Category) -> Seq<char> {
    match category {
        Category::Ready => "ready"@,
        Category::FinishedTask => "finished:task"@,
        Category::DiscoveredDomain => "discovered:domain"@,
        Category::OpenPort => "open:port"@,
    }
}

/// The categories of a list of events, in order.
pub open spec fn categories_of(events: Seq<Type>) -> Seq<Category> {
    Seq::new(events.len(), |i: int| category_of(events[i]@))
}

impl Type {
    pub fn category(&self) -> (r: Category)
        ensures
            r == category_of(self@),
    {
        match self {
            Type::Ready => Category::Ready,
            Type::FinishedTask => Category::FinishedTask,
            Type::DiscoveredDomain(_) => Category::DiscoveredDomain,
            Type::OpenPort(_, _) => Category::OpenPort,
        }
    }

    /// The name under which the event is logged. The payload takes no part.
    pub fn name(&self) -> (r: String)
        ensures
            r@ == name_of(category_of(self@)),
    {
        match self {
            Type::Ready => String::from_str("ready"),
            Type::FinishedTask => String::from_str("finished:task"),
            Type::DiscoveredDomain(_) => String::from_str("discovered:domain"),
            Type::OpenPort(_, _) => String::from_str("open:port"),
        }
    }

    /// A copy of the event.
    pub fn duplicate(&self) -> (r: Type)
        ensures
            r@ == self@,
    {
        match self {
            Type::Ready => Type::Ready,
            Type::FinishedTask => Type::FinishedTask,
            Type::DiscoveredDomain(domain) => Type::DiscoveredDomain(domain.clone()),
            Type::OpenPort(host, port) => Type::OpenPort(host.clone(), *port),
        }
    }
}

/// Whether an event falls under a subscription: `Ready` under `Ready`,
/// `DiscoveredDomain` under `DiscoveredDomain`, `OpenPort` under `OpenPort`,
/// whatever the payloads. Nothing subscribes to `FinishedTask`.
pub open spec fn subscription_matches(subscription: Category, event: Category) -> bool {
    subscription == event && event != Category::FinishedTask
}

pub fn matches_subscription(subscription: Category, event: Category) -> (r: bool)
    ensures
        r == subscription_matches(subscription, event),
{
    match (subscription, event) {
        (Category::Ready, Category::Ready) => true,
        (Category::DiscoveredDomain, Category::DiscoveredDomain) => true,
        (Category::OpenPort, Category::OpenPort) => true,
        _ => false,
    }
}

} // verus!
