//! The jobs of a workflow, by name.

use vstd::prelude::*;
use crate::table::{Table, keys_of, map_of};

verus! {

/// A job of a workflow.
#[derive(Debug, PartialEq, Eq)]
pub struct Job {}

impl View for Job {
    type V = ();

    open spec fn view(&self) -> () {
        ()
    }
}

impl Default for Job {
    fn default() -> (r: Job)
        ensures
            r == (Job {}),
    {
        Job {}
    }
}

/// The jobs of a workflow, by unique name.
#[derive(Debug, PartialEq, Eq)]
pub struct Jobs(Table<Job>);

impl View for Jobs {
    type V = Set<Seq<char>>;

    closed spec fn view(&self) -> Set<Seq<char>> {
        self.0@.dom()
    }
}

impl Default for Jobs {
    fn default() -> (r: Jobs)
        ensures
            r@ == Set::<Seq<char>>::empty(),
    {
        Jobs::new()
    }
}

impl Jobs {
    /// No job.
    pub fn new() -> (r: Self)
        ensures
            r@ == Set::<Seq<char>>::empty(),
    {
        let r = Jobs(Table::new());
        assert(r@ =~= Set::<Seq<char>>::empty());
        r
    }

    /// Adds the job `name`, returning the job it replaces.
    pub fn insert(&mut self, name: String, job: Job) -> (r: Option<Job>)
        ensures
            final(self)@ == old(self)@.insert(name@),
            r is Some == old(self)@.contains(name@),
    {
        let ghost k = name@;
        let r = self.0.insert(name, job);
        assert(self.0@.dom() =~= old(self).0@.dom().insert(k));
        r
    }

    /// The number of jobs.
    pub fn len(&self) -> (r: usize)
        ensures
            r == self@.len(),
    {
        self.0.len()
    }

    /// Whether there is no job.
    pub fn is_empty(&self) -> (r: bool)
        ensures
            r == (self@.len() == 0),
    {
        self.0.is_empty()
    }

    /// The jobs with their names, in the order the names were first added.
    pub fn iter(&self) -> (r: &Vec<(String, Job)>)
        ensures
            keys_of(r@).no_duplicates(),
            keys_of(r@).to_set() == self@,
    {
        let r = self.0.entries();
        assert(keys_of(r@).to_set() =~= map_of(r@).dom());
        r
    }

    /// The job `name`.
    pub fn get(&self, name: &str) -> (r: Option<&Job>)
        ensures
            r is Some == self@.contains(name@),
    {
        self.0.get(name)
    }

    /// Takes out the job `name`.
    pub fn remove(&mut self, name: &str) -> (r: Option<Job>)
        ensures
            final(self)@ == old(self)@.remove(name@),
            r is Some == old(self)@.contains(name@),
    {
        let r = self.0.remove(name);
        assert(self.0@.dom() =~= old(self).0@.dom().remove(name@));
        r
    }

    /// Whether there is a job `name`.
    pub fn contains_key(&self, name: &str) -> (r: bool)
        ensures
            r == self@.contains(name@),
    {
        self.0.contains_key(name)
    }

    /// The job names, in the order they were first added.
    pub fn keys(&self) -> (r: Vec<String>)
        ensures
            r@.map_values(|s: String| s@).no_duplicates(),
            r@.map_values(|s: String| s@).to_set() == self@,
    {
        let entries = self.0.entries();
        let mut r: Vec<String> = Vec::new();
        let mut i: usize = 0;
        while i < entries.len()
            invariant
                i <= entries@.len(),
                r@.map_values(|s: String| s@) == keys_of(entries@).subrange(0, i as int),
            decreases entries.len() - i,
        {
            let ghost before = r@;
            r.push(String::from_str(entries[i].0.as_str()));
            assert(r@.map_values(|s: String| s@) =~= before.map_values(|s: String| s@).push(
                entries@[i as int].0@,
            ));
            assert(keys_of(entries@)[i as int] == entries@[i as int].0@);
            assert(r@.map_values(|s: String| s@) =~= keys_of(entries@).subrange(0, i + 1));
            i += 1;
        }
        assert(keys_of(entries@).subrange(0, entries@.len() as int) =~= keys_of(entries@));
        assert(keys_of(entries@).to_set() =~= map_of(entries@).dom());
        r
    }

    /// The jobs, in the order their names were first added.
    pub fn values(&self) -> (r: Vec<&Job>)
        ensures
            r@.len() == self@.len(),
    {
        let entries = self.0.entries();
        let mut r: Vec<&Job> = Vec::new();
        let mut i: usize = 0;
        while i < entries.len()
            invariant
                i <= entries@.len(),
                r@.len() == i,
            decreases entries.len() - i,
        {
            r.push(&entries[i].1);
            i += 1;
        }
        proof {
            keys_of(entries@).unique_seq_to_set();
            assert(keys_of(entries@).to_set() =~= map_of(entries@).dom());
        }
        r
    }

    /// Takes out every job.
    pub fn clear(&mut self)
        ensures
            final(self)@ == Set::<Seq<char>>::empty(),
    {
        self.0.clear();
        assert(self.0@.dom() =~= Set::<Seq<char>>::empty());
    }
}

} // verus!
