//! What a session knows of the machine that it serves.

use vstd::prelude::*;

verus! {

/// One mining machine: who it is, and how its shares have fared.
pub struct Worker {
    /// The wallet and the machine's name, with a dot between them.
    pub worker: String,
    /// The machine's own name.
    pub worker_name: String,
    /// The wallet that it mines for.
    pub worker_wallet: String,
    /// Whether the pool has answered its login.
    pub online: bool,
    /// How many shares it has submitted.
    pub share_index: u64,
    /// How many of them the pool has accepted.
    pub accept_index: u64,
    /// How many answers of the pool were no acceptance.
    pub invalid_index: u64,
}

/// A worker as contracts see it.
pub struct WorkerView {
    pub worker: Seq<char>,
    pub worker_name: Seq<char>,
    pub worker_wallet: Seq<char>,
    pub online: bool,
    pub share_index: u64,
    pub accept_index: u64,
    pub invalid_index: u64,
}

impl View for Worker {
    type V = WorkerView;

    open spec fn view(&self) -> WorkerView {
        WorkerView {
            worker: self.worker@,
            worker_name: self.worker_name@,
            worker_wallet: self.worker_wallet@,
            online: self.online,
            share_index: self.share_index,
            accept_index: self.accept_index,
            invalid_index: self.invalid_index,
        }
    }
}

/// A machine that has said nothing yet.
pub open spec fn fresh_worker() -> WorkerView {
    WorkerView {
        worker: seq![],
        worker_name: seq![],
        worker_wallet: seq![],
        online: false,
        share_index: 0,
        accept_index: 0,
        invalid_index: 0,
    }
}

impl Default for Worker {
    fn default() -> (r: Worker)
        ensures
            r@ == fresh_worker(),
    {
        Worker {
            worker: String::new(),
            worker_name: String::new(),
            worker_wallet: String::new(),
            online: false,
            share_index: 0,
            accept_index: 0,
            invalid_index: 0,
        }
    }
}

impl Worker {
    /// Takes down who the machine says it is.
    pub fn login(&mut self, worker: String, worker_name: String, worker_wallet: String)
        ensures
            final(self)@ == (WorkerView {
                worker: worker@,
                worker_name: worker_name@,
                worker_wallet: worker_wallet@,
                ..old(self)@
            }),
    {
        self.worker = worker;
        self.worker_name = worker_name;
        self.worker_wallet = worker_wallet;
    }

    /// The pool has answered the login.
    pub fn logind(&mut self)
        ensures
            final(self)@ == (WorkerView { online: true, ..old(self)@ }),
    {
        self.online = true;
    }

    /// One more share was submitted.
    pub fn share_index_add(&mut self)
        requires
            old(self).share_index < u64::MAX,
        ensures
            final(self)@ == (WorkerView {
                share_index: (old(self)@.share_index + 1) as u64,
                ..old(self)@
            }),
    {
        self.share_index = self.share_index + 1;
    }

    /// The pool accepted a share.
    pub fn share_accept(&mut self)
        requires
            old(self).accept_index < u64::MAX,
        ensures
            final(self)@ == (WorkerView {
                accept_index: (old(self)@.accept_index + 1) as u64,
                ..old(self)@
            }),
    {
        self.accept_index = self.accept_index + 1;
    }

    /// The pool answered with something else than an acceptance.
    pub fn share_reject(&mut self)
        requires
            old(self).invalid_index < u64::MAX,
        ensures
            final(self)@ == (WorkerView {
                invalid_index: (old(self)@.invalid_index + 1) as u64,
                ..old(self)@
            }),
    {
        self.invalid_index = self.invalid_index + 1;
    }
}

} // verus!
