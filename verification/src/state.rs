//! The run state: how many tasks are in flight, how many permits of the
//! admission semaphore are held, and which values have been announced already.
use crate::helpers::text::{decimal, decimal_digits};
use vstd::prelude::*;

verus! {

pub struct State {
    active_tasks: usize,
    permits: usize,
    permits_held: usize,
    verbose: bool,
    debug: bool,
    discovered_domains: Vec<String>,
    discovered_emails: Vec<String>,
}

/// The texts that a list holds.
pub open spec fn texts_of(list: Seq<String>) -> Set<Seq<char>> {
    Set::new(|s: Seq<char>| exists|i: int| 0 <= i < list.len() && (#[trigger] list[i])@ == s)
}

/// What a check-and-mark on the set `announced` returns for `value`:
/// whether the value is new.
pub open spec fn marks_fresh(announced: Set<Seq<char>>, value: Seq<char>) -> bool {
    !announced.contains(value)
}

/// Of two check-and-marks for one value, in whichever order they take
/// effect, the second does not find the value new: whatever the first found,
/// it left the value in the set that the second looks at.
pub proof fn lemma_marked_once(announced: Set<Seq<char>>, value: Seq<char>)
    ensures
        !marks_fresh(announced.insert(value), value),
        !(marks_fresh(announced, value) && marks_fresh(announced.insert(value), value)),
{
}

/// A semaphore with fewer permits held than it has grants one more, and the
/// number held stays within its size; a full one grants none. So no
/// sequence of grants and returns leads beyond its size.
pub proof fn lemma_admission_bound(before: State, granted: bool, after: State)
    requires
        before.admission_bound(),
        granted == (before.permits_held() < before.permits()),
        after.permits() == before.permits(),
        after.permits_held() == before.permits_held() + if granted {
            1nat
        } else {
            0nat
        },
    ensures
        after.admission_bound(),
        before.permits_held() == before.permits() ==> !granted,
{
}

/// Whether a list holds a text.
pub(crate) fn list_contains(list: &Vec<String>, text: &String) -> (r: bool)
    ensures
        r == texts_of(list@).contains(text@),
{
    let n = list.len();
    let mut i: usize = 0;
    while i < n
        invariant
            i <= n,
            n == list@.len(),
            forall|j: int| 0 <= j < i ==> (#[trigger] list@[j])@ != text@,
        decreases n - i,
    {
        if list[i] == *text {
            return true;
        }
        i += 1;
    }
    false
}

/// Appends a text to a list.
pub(crate) fn list_push(list: &mut Vec<String>, text: String)
    ensures
        texts_of(final(list)@) == texts_of(old(list)@).insert(text@),
        final(list)@ == old(list)@.push(text),
{
    let ghost before = list@;
    list.push(text);
    proof {
        let after = list@;
        assert forall|s: Seq<char>|
            texts_of(after).contains(s) == texts_of(before).insert(text@).contains(s) by {
            if texts_of(after).contains(s) {
                let i = choose|i: int| 0 <= i < after.len() && (#[trigger] after[i])@ == s;
                if i < before.len() {
                    assert(before[i]@ == s);
                }
            }
            if texts_of(before).contains(s) {
                let i = choose|i: int| 0 <= i < before.len() && (#[trigger] before[i])@ == s;
                assert(after[i]@ == s);
            }
            if s == text@ {
                assert(after[before.len() as int]@ == s);
            }
        }
        assert(texts_of(after) =~= texts_of(before).insert(text@));
    }
}

impl State {
    /// The state at the start of a run: nothing in flight, no permit held,
    /// nothing announced. `permits` is the size of the admission semaphore.
    pub fn new(verbose: bool, debug: bool, permits: usize) -> (state: State)
        ensures
            state.active_tasks() == 0,
            state.permits() == permits,
            state.permits_held() == 0,
            state.verbose() == verbose,
            state.debug() == debug,
            state.domains() == Set::<Seq<char>>::empty(),
            state.emails() == Set::<Seq<char>>::empty(),
            state.admission_bound(),
    {
        let state = State {
            active_tasks: 0,
            permits,
            permits_held: 0,
            verbose,
            debug,
            discovered_domains: Vec::new(),
            discovered_emails: Vec::new(),
        };
        proof {
            assert(state.domains() =~= Set::<Seq<char>>::empty());
            assert(state.emails() =~= Set::<Seq<char>>::empty());
        }
        state
    }

    /// The number of tasks launched and not yet reported as finished.
    pub closed spec fn active_tasks(&self) -> nat {
        self.active_tasks as nat
    }

    /// The size of the admission semaphore.
    pub closed spec fn permits(&self) -> nat {
        self.permits as nat
    }

    /// The number of permits that task bodies hold.
    pub closed spec fn permits_held(&self) -> nat {
        self.permits_held as nat
    }

    pub closed spec fn verbose(&self) -> bool {
        self.verbose
    }

    pub closed spec fn debug(&self) -> bool {
        self.debug
    }

    /// The domains announced so far.
    pub closed spec fn domains(&self) -> Set<Seq<char>> {
        texts_of(self.discovered_domains@)
    }

    /// The e-mail addresses announced so far.
    pub closed spec fn emails(&self) -> Set<Seq<char>> {
        texts_of(self.discovered_emails@)
    }

    /// No more permits are held than the semaphore has. This holds of every
    /// state, at every point of a run.
    pub open spec fn admission_bound(&self) -> bool {
        self.permits_held() <= self.permits()
    }

    #[verifier::type_invariant]
    spec fn bounded(&self) -> bool {
        self.permits_held <= self.permits
    }

    /// Whether the two states differ at most in the counter of tasks.
    pub open spec fn same_but_tasks(&self, other: &State) -> bool {
        &&& self.permits() == other.permits()
        &&& self.permits_held() == other.permits_held()
        &&& self.verbose() == other.verbose()
        &&& self.debug() == other.debug()
        &&& self.domains() == other.domains()
        &&& self.emails() == other.emails()
    }

    /// Whether the two states differ at most in the permits held.
    pub open spec fn same_but_held(&self, other: &State) -> bool {
        &&& self.active_tasks() == other.active_tasks()
        &&& self.permits() == other.permits()
        &&& self.verbose() == other.verbose()
        &&& self.debug() == other.debug()
        &&& self.domains() == other.domains()
        &&& self.emails() == other.emails()
    }

    /// Whether the two states differ at most in what has been announced.
    pub open spec fn same_but_announced(&self, other: &State) -> bool {
        &&& self.active_tasks() == other.active_tasks()
        &&& self.permits() == other.permits()
        &&& self.permits_held() == other.permits_held()
        &&& self.verbose() == other.verbose()
        &&& self.debug() == other.debug()
    }

    /// Counts one more task as in flight.
    pub fn increment_tasks(&mut self)
        requires
            old(self).active_tasks() < usize::MAX,
        ensures
            final(self).active_tasks() == old(self).active_tasks() + 1,
            final(self).same_but_tasks(old(self)),
    {
        proof {
            use_type_invariant(&*self);
        }
        self.active_tasks = self.active_tasks + 1;
    }

    /// Counts one task as finished. With nothing in flight the counter wraps
    /// round to the largest number, as an atomic counter does.
    pub fn decrement_tasks(&mut self)
        ensures
            old(self).active_tasks() > 0 ==> final(self).active_tasks() == old(self).active_tasks()
                - 1,
            old(self).active_tasks() == 0 ==> final(self).active_tasks() == usize::MAX,
            final(self).same_but_tasks(old(self)),
    {
        proof {
            use_type_invariant(&*self);
        }
        self.active_tasks = self.active_tasks.wrapping_sub(1);
    }

    pub fn active_tasks_count(&self) -> (r: usize)
        ensures
            r == self.active_tasks(),
    {
        self.active_tasks
    }

    /// Takes one permit of the admission semaphore where one is free, and says
    /// whether it did. A task body runs only while it holds a permit.
    pub fn get_semaphore_permit(&mut self) -> (granted: bool)
        ensures
            granted == (old(self).permits_held() < old(self).permits()),
            final(self).permits_held() == old(self).permits_held() + if granted {
                1nat
            } else {
                0nat
            },
            final(self).same_but_held(old(self)),
            old(self).admission_bound(),
            final(self).admission_bound(),
    {
        proof {
            use_type_invariant(&*self);
        }
        if self.permits_held < self.permits {
            self.permits_held = self.permits_held + 1;
            true
        } else {
            false
        }
    }

    /// Gives one permit back. With none held nothing changes.
    pub fn release_semaphore_permit(&mut self)
        ensures
            old(self).permits_held() > 0 ==> final(self).permits_held() == old(self).permits_held()
                - 1,
            old(self).permits_held() == 0 ==> final(self).permits_held() == 0,
            final(self).same_but_held(old(self)),
            final(self).admission_bound(),
    {
        proof {
            use_type_invariant(&*self);
        }
        if self.permits_held > 0 {
            self.permits_held = self.permits_held - 1;
        }
    }

    /// The number of permits that are free.
    pub fn available_permits(&self) -> (r: usize)
        ensures
            self.admission_bound(),
            r == self.permits() - self.permits_held(),
    {
        proof {
            use_type_invariant(self);
        }
        self.permits - self.permits_held
    }

    /// The line of the periodic report: the tasks in flight, the permits
    /// that are free, and the memory in use as the caller words it. The line
    /// takes no part in any decision.
    pub fn report_line(&self, memory: &str) -> (r: String)
        ensures
            self.admission_bound(),
            r@ == "tasks="@ + decimal_digits(self.active_tasks()) + ", permits="@
                + decimal_digits((self.permits() - self.permits_held()) as nat) + ", memory="@
                + memory@,
    {
        let mut r = String::from_str("tasks=");
        r.append(decimal(self.active_tasks_count()).as_str());
        r.append(", permits=");
        r.append(decimal(self.available_permits()).as_str());
        r.append(", memory=");
        r.append(memory);
        r
    }

    pub fn is_debug(&self) -> (r: bool)
        ensures
            r == self.debug(),
    {
        self.debug
    }

    pub fn is_verbose(&self) -> (r: bool)
        ensures
            r == self.verbose(),
    {
        self.verbose
    }

    pub fn is_debug_or_verbose(&self) -> (r: bool)
        ensures
            r == (self.debug() || self.verbose()),
    {
        self.is_debug() || self.is_verbose()
    }

    /// Records a domain as announced.
    pub fn discover_domain(&mut self, domain: String)
        ensures
            final(self).domains() == old(self).domains().insert(domain@),
            final(self).emails() == old(self).emails(),
            final(self).same_but_announced(old(self)),
    {
        proof {
            use_type_invariant(&*self);
        }
        let mut list: Vec<String> = Vec::new();
        std::mem::swap(&mut self.discovered_domains, &mut list);
        list_push(&mut list, domain);
        std::mem::swap(&mut self.discovered_domains, &mut list);
    }

    pub fn has_discovered_domain(&self, domain: String) -> (r: bool)
        ensures
            r == self.domains().contains(domain@),
    {
        list_contains(&self.discovered_domains, &domain)
    }

    /// Records a domain as announced unless it was, in one step, and says
    /// whether it was new. Of any number of calls for one domain exactly the
    /// first returns `true`.
    pub fn mark_domain(&mut self, domain: String) -> (fresh: bool)
        ensures
            fresh == marks_fresh(old(self).domains(), domain@),
            final(self).domains() == old(self).domains().insert(domain@),
            final(self).emails() == old(self).emails(),
            final(self).same_but_announced(old(self)),
    {
        proof {
            use_type_invariant(&*self);
        }
        if list_contains(&self.discovered_domains, &domain) {
            assert(self.domains().insert(domain@) =~= self.domains());
            false
        } else {
            let mut list: Vec<String> = Vec::new();
            std::mem::swap(&mut self.discovered_domains, &mut list);
            list_push(&mut list, domain);
            std::mem::swap(&mut self.discovered_domains, &mut list);
            true
        }
    }

    /// Records an e-mail address as announced.
    pub fn discover_email(&mut self, email: String)
        ensures
            final(self).emails() == old(self).emails().insert(email@),
            final(self).domains() == old(self).domains(),
            final(self).same_but_announced(old(self)),
    {
        proof {
            use_type_invariant(&*self);
        }
        let mut list: Vec<String> = Vec::new();
        std::mem::swap(&mut self.discovered_emails, &mut list);
        list_push(&mut list, email);
        std::mem::swap(&mut self.discovered_emails, &mut list);
    }

    pub fn has_discovered_email(&self, email: String) -> (r: bool)
        ensures
            r == self.emails().contains(email@),
    {
        list_contains(&self.discovered_emails, &email)
    }

    /// Records an e-mail address as announced unless it was, in one step, and
    /// says whether it was new.
    pub fn mark_email(&mut self, email: String) -> (fresh: bool)
        ensures
            fresh == marks_fresh(old(self).emails(), email@),
            final(self).emails() == old(self).emails().insert(email@),
            final(self).domains() == old(self).domains(),
            final(self).same_but_announced(old(self)),
    {
        proof {
            use_type_invariant(&*self);
        }
        if list_contains(&self.discovered_emails, &email) {
            assert(self.emails().insert(email@) =~= self.emails());
            false
        } else {
            let mut list: Vec<String> = Vec::new();
            std::mem::swap(&mut self.discovered_emails, &mut list);
            list_push(&mut list, email);
            std::mem::swap(&mut self.discovered_emails, &mut list);
            true
        }
    }
}

} // verus!
