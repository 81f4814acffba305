//! The task that announces the start of a run.
use crate::events;
use crate::events::Category;
use crate::modules::{Module, NoiseLevel};
use vstd::prelude::*;

verus! {

pub struct ModuleReady {}

impl ModuleReady {
    pub fn new() -> (r: Self) {
        ModuleReady {  }
    }

    /// The line that the task logs when it runs.
    pub fn message(&self) -> (r: String)
        ensures
            r@ == "Project Absence is now ready and will start doing its magic!"@,
    {
        String::from_str("Project Absence is now ready and will start doing its magic!")
    }
}

impl Module for ModuleReady {
    fn name(&self) -> (r: String)
        ensures
            r@ == "ready"@,
    {
        String::from_str("ready")
    }

    fn description(&self) -> (r: String)
        ensures
            r@ == "This module is responsible to know when Project Absence is ready and will start to do the work"@,
    {
        String::from_str(
            "This module is responsible to know when Project Absence is ready and will start to do the work",
        )
    }

    fn noise_level(&self) -> (r: NoiseLevel)
        ensures
            r == NoiseLevel::Silent,
    {
        NoiseLevel::Silent
    }

    fn subscribers(&self) -> (r: Vec<events::Type>)
        ensures
            events::categories_of(r@) == seq![Category::Ready],
    {
        let r = vec![events::Type::Ready];
        assert(events::categories_of(r@) =~= seq![Category::Ready]);
        r
    }
}

} // verus!
