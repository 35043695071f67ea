//! The kernels that a device offers, by module and function name.

use crate::gpu::KernelHandle;
use crate::text::same;
use vstd::prelude::*;

verus! {

/// A loaded kernel.
pub struct KernelEntry {
    pub module: String,
    pub function: String,
    pub handle: KernelHandle,
}

/// All loaded kernels.
pub struct KernelTable {
    pub entries: Vec<KernelEntry>,
}

/// A required kernel that is not loaded.
#[derive(Clone, Copy, Debug)]
pub struct MissingKernel {
    pub module: &'static str,
    pub function: &'static str,
}

impl View for MissingKernel {
    type V = (Seq<char>, Seq<char>);

    open spec fn view(&self) -> (Seq<char>, Seq<char>) {
        (self.module@, self.function@)
    }
}

impl KernelTable {
    /// The first of the first `n` entries with this name.
    pub open spec fn find_in(&self, module: Seq<char>, function: Seq<char>, n: nat) -> Option<
        KernelHandle,
    >
        decreases n,
    {
        if n == 0 {
            None
        } else {
            let earlier = self.find_in(module, function, (n - 1) as nat);
            let e = self.entries@[n - 1];
            if earlier is Some {
                earlier
            } else if e.module@ == module && e.function@ == function {
                Some(e.handle)
            } else {
                None
            }
        }
    }

    /// The kernel with this name.
    pub open spec fn find(&self, module: Seq<char>, function: Seq<char>) -> Option<KernelHandle> {
        self.find_in(module, function, self.entries@.len())
    }

    /// The kernel with this name, or handle zero.
    pub open spec fn handle(&self, module: Seq<char>, function: Seq<char>) -> KernelHandle {
        match self.find(module, function) {
            Some(k) => k,
            None => KernelHandle(0),
        }
    }

    proof fn lemma_found_stays(&self, module: Seq<char>, function: Seq<char>, a: nat, b: nat)
        requires
            a <= b,
            self.find_in(module, function, a) is Some,
        ensures
            self.find_in(module, function, b) == self.find_in(module, function, a),
        decreases b,
    {
        if a < b {
            self.lemma_found_stays(module, function, a, (b - 1) as nat);
        }
    }

    /// Looks a kernel up.
    pub fn kernel(&self, module: &str, function: &str) -> (r: Option<KernelHandle>)
        ensures
            r == self.find(module@, function@),
    {
        let mut i: usize = 0;
        while i < self.entries.len()
            invariant
                i <= self.entries@.len(),
                self.find_in(module@, function@, i as nat) is None,
            decreases self.entries@.len() - i,
        {
            let e: &KernelEntry = &self.entries[i];
            if same(e.module.as_str(), module) && same(e.function.as_str(), function) {
                proof {
                    self.lemma_found_stays(
                        module@,
                        function@,
                        (i + 1) as nat,
                        self.entries@.len(),
                    );
                }
                return Some(e.handle);
            }
            i = i + 1;
        }
        None
    }

    /// Looks an optional kernel up; handle zero when it is not loaded.
    pub fn try_kernel(&self, module: &str, function: &str) -> (r: KernelHandle)
        ensures
            r == self.handle(module@, function@),
    {
        match self.kernel(module, function) {
            Some(k) => k,
            None => KernelHandle(0),
        }
    }

    /// The first missing kernel after one more is required.
    pub open spec fn need(
        &self,
        missing: Option<(Seq<char>, Seq<char>)>,
        module: Seq<char>,
        function: Seq<char>,
    ) -> Option<(Seq<char>, Seq<char>)> {
        if missing is None && self.find(module, function) is None {
            Some((module, function))
        } else {
            missing
        }
    }

    /// The first missing kernel after one of two is required; the second one is
    /// named when both are missing.
    pub open spec fn need_either(
        &self,
        missing: Option<(Seq<char>, Seq<char>)>,
        first: (Seq<char>, Seq<char>),
        second: (Seq<char>, Seq<char>),
    ) -> Option<(Seq<char>, Seq<char>)> {
        if self.find(first.0, first.1) is Some {
            missing
        } else {
            self.need(missing, second.0, second.1)
        }
    }

    /// The first of two kernels that is loaded.
    pub open spec fn either(
        &self,
        first: (Seq<char>, Seq<char>),
        second: (Seq<char>, Seq<char>),
    ) -> KernelHandle {
        if self.find(first.0, first.1) is Some {
            self.handle(first.0, first.1)
        } else {
            self.handle(second.0, second.1)
        }
    }

    /// As `either` when `prefer` is set, else the second kernel.
    pub open spec fn pick(
        &self,
        prefer: bool,
        first: (Seq<char>, Seq<char>),
        second: (Seq<char>, Seq<char>),
    ) -> KernelHandle {
        if prefer {
            self.either(first, second)
        } else {
            self.handle(second.0, second.1)
        }
    }

    pub open spec fn need_if(
        &self,
        missing: Option<(Seq<char>, Seq<char>)>,
        prefer: bool,
        first: (Seq<char>, Seq<char>),
        second: (Seq<char>, Seq<char>),
    ) -> Option<(Seq<char>, Seq<char>)> {
        if prefer {
            self.need_either(missing, first, second)
        } else {
            self.need(missing, second.0, second.1)
        }
    }
}

/// Looks required kernels up and remembers the first one that is missing.
pub struct Lookup<'a> {
    pub table: &'a KernelTable,
    pub missing: Option<MissingKernel>,
}

impl<'a> Lookup<'a> {
    pub open spec fn first_missing(&self) -> Option<(Seq<char>, Seq<char>)> {
        match self.missing {
            Some(m) => Some(m@),
            None => None,
        }
    }

    pub fn new(table: &'a KernelTable) -> (r: Self)
        ensures
            r.table == table,
            r.first_missing() is None,
    {
        Lookup { table, missing: None }
    }

    pub fn must(&mut self, module: &'static str, function: &'static str) -> (r: KernelHandle)
        ensures
            final(self).table == old(self).table,
            r == old(self).table.handle(module@, function@),
            final(self).first_missing() == old(self).table.need(
                old(self).first_missing(),
                module@,
                function@,
            ),
    {
        match self.table.kernel(module, function) {
            Some(k) => k,
            None => {
                if self.missing.is_none() {
                    self.missing = Some(MissingKernel { module, function });
                }
                KernelHandle(0)
            },
        }
    }

    pub fn must_either(
        &mut self,
        first: (&'static str, &'static str),
        second: (&'static str, &'static str),
    ) -> (r: KernelHandle)
        ensures
            final(self).table == old(self).table,
            r == old(self).table.either((first.0@, first.1@), (second.0@, second.1@)),
            final(self).first_missing() == old(self).table.need_either(
                old(self).first_missing(),
                (first.0@, first.1@),
                (second.0@, second.1@),
            ),
    {
        match self.table.kernel(first.0, first.1) {
            Some(k) => k,
            None => self.must(second.0, second.1),
        }
    }

    /// The first of two kernels that is loaded when `prefer` is set, else the
    /// second.
    pub fn must_if(
        &mut self,
        prefer: bool,
        first: (&'static str, &'static str),
        second: (&'static str, &'static str),
    ) -> (r: KernelHandle)
        ensures
            final(self).table == old(self).table,
            r == old(self).table.pick(prefer, (first.0@, first.1@), (second.0@, second.1@)),
            final(self).first_missing() == old(self).table.need_if(
                old(self).first_missing(),
                prefer,
                (first.0@, first.1@),
                (second.0@, second.1@),
            ),
    {
        if prefer {
            self.must_either(first, second)
        } else {
            self.must(second.0, second.1)
        }
    }

    pub fn may(&self, module: &'static str, function: &'static str) -> (r: KernelHandle)
        ensures
            r == self.table.handle(module@, function@),
    {
        self.table.try_kernel(module, function)
    }
}

} // verus!
