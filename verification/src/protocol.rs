//! The messages that machines, proxy and pools exchange.
//!
//! Each message type has a view, in which its texts are sequences of
//! characters. The three forms of a job share one view.

use vstd::prelude::*;

verus! {

/// The identifiers under which the proxy's own requests go to the pool.
#[derive(Clone, Copy)]
pub struct RequestIds {
    /// The identifier of a login.
    pub login: u64,
    /// The identifier of a request for work.
    pub get_work: u64,
    /// The identifier of a hashrate report.
    pub submit_hashrate: u64,
}

/// The texts of a list of strings.
pub open spec fn texts(list: Seq<String>) -> Seq<Seq<char>> {
    list.map_values(|s: String| s@)
}

/// The text of a string that may be absent.
pub open spec fn text_option(s: Option<String>) -> Option<Seq<char>> {
    match s {
        Some(t) => Some(t@),
        None => None,
    }
}

/// A request that names the machine it comes from.
#[derive(Debug, PartialEq, Eq)]
pub struct ClientWithWorkerName {
    pub id: u64,
    pub method: String,
    pub params: Vec<String>,
    pub worker: String,
}

/// A request in the plain form, whose machine name may be empty.
#[derive(Debug, PartialEq, Eq)]
pub struct Client {
    pub id: u64,
    pub method: String,
    pub params: Vec<String>,
    pub worker: String,
}

/// A request as contracts see it.
pub struct ClientView {
    pub id: u64,
    pub method: Seq<char>,
    pub params: Seq<Seq<char>>,
    pub worker: Seq<char>,
}

impl View for ClientWithWorkerName {
    type V = ClientView;

    open spec fn view(&self) -> ClientView {
        ClientView {
            id: self.id,
            method: self.method@,
            params: texts(self.params@),
            worker: self.worker@,
        }
    }
}

impl View for Client {
    type V = ClientView;

    open spec fn view(&self) -> ClientView {
        ClientView {
            id: self.id,
            method: self.method@,
            params: texts(self.params@),
            worker: self.worker@,
        }
    }
}

impl Clone for Client {
    fn clone(&self) -> (r: Client)
        ensures
            r@ == self@,
    {
        let r = Client {
            id: self.id,
            method: self.method.clone(),
            params: self.params.clone(),
            worker: self.worker.clone(),
        };
        assert(texts(r.params@) =~= texts(self.params@));
        r
    }
}

/// Whether `method` is spelled `name`.
pub fn is_method(method: &String, name: &str) -> (r: bool)
    ensures
        r == (method@ == name@),
{
    *method == name.to_owned()
}

/// The methods by which a machine logs in, submits work and reports its
/// hashrate are three.
pub proof fn lemma_methods_differ()
    ensures
        "eth_submitLogin"@ != "eth_submitWork"@,
        "eth_submitLogin"@ != "eth_submitHashrate"@,
        "eth_submitWork"@ != "eth_submitHashrate"@,
{
    reveal_strlit("eth_submitLogin");
    reveal_strlit("eth_submitWork");
    reveal_strlit("eth_submitHashrate");
    assert("eth_submitLogin"@[10] == 'L');
    assert("eth_submitWork"@[10] == 'W');
    assert("eth_submitHashrate"@[10] == 'H');
}

/// An answer that says yes or no.
#[derive(Debug, PartialEq, Eq)]
pub struct ServerId1 {
    pub id: u64,
    pub jsonrpc: Option<String>,
    pub result: bool,
}

/// An answer as contracts see it.
pub struct ServerId1View {
    pub id: u64,
    pub jsonrpc: Option<Seq<char>>,
    pub result: bool,
}

impl View for ServerId1 {
    type V = ServerId1View;

    open spec fn view(&self) -> ServerId1View {
        ServerId1View {
            id: self.id,
            jsonrpc: text_option(self.jsonrpc),
            result: self.result,
        }
    }
}

/// A job in the plain form.
#[derive(Debug, PartialEq, Eq)]
pub struct Server {
    pub id: u64,
    pub result: Vec<String>,
}

/// A job that carries the protocol's version.
#[derive(Debug, PartialEq, Eq)]
pub struct ServerSideJob {
    pub id: u64,
    pub jsonrpc: String,
    pub result: Vec<String>,
}

/// A job that carries the height of its block.
#[derive(Debug, PartialEq, Eq)]
pub struct ServerJobsWithHeight {
    pub id: u64,
    pub jsonrpc: String,
    pub result: Vec<String>,
    pub height: u64,
}

/// The part of a job that a form adds to the identifier and the result.
pub enum JobForm {
    Plain,
    Side { jsonrpc: Seq<char> },
    WithHeight { jsonrpc: Seq<char>, height: u64 },
}

/// A job as contracts see it, whatever its form.
pub struct JobView {
    pub id: u64,
    pub result: Seq<Seq<char>>,
    pub form: JobForm,
}

/// What the forms of a job have in common.
pub trait ServerRpc: Sized {
    spec fn job(&self) -> JobView;

    fn id(&self) -> (r: u64)
        ensures
            r == self.job().id,
    ;

    fn set_id(&mut self, id: u64)
        ensures
            final(self).job() == (JobView { id, ..old(self).job() }),
    ;

    fn set_result(&mut self, result: Vec<String>)
        ensures
            final(self).job() == (JobView { result: texts(result@), ..old(self).job() }),
    ;
}

impl ServerRpc for Server {
    open spec fn job(&self) -> JobView {
        JobView { id: self.id, result: texts(self.result@), form: JobForm::Plain }
    }

    fn id(&self) -> (r: u64) {
        self.id
    }

    fn set_id(&mut self, id: u64) {
        self.id = id;
    }

    fn set_result(&mut self, result: Vec<String>) {
        self.result = result;
    }
}

impl ServerRpc for ServerSideJob {
    open spec fn job(&self) -> JobView {
        JobView {
            id: self.id,
            result: texts(self.result@),
            form: JobForm::Side { jsonrpc: self.jsonrpc@ },
        }
    }

    fn id(&self) -> (r: u64) {
        self.id
    }

    fn set_id(&mut self, id: u64) {
        self.id = id;
    }

    fn set_result(&mut self, result: Vec<String>) {
        self.result = result;
    }
}

impl ServerRpc for ServerJobsWithHeight {
    open spec fn job(&self) -> JobView {
        JobView {
            id: self.id,
            result: texts(self.result@),
            form: JobForm::WithHeight { jsonrpc: self.jsonrpc@, height: self.height },
        }
    }

    fn id(&self) -> (r: u64) {
        self.id
    }

    fn set_id(&mut self, id: u64) {
        self.id = id;
    }

    fn set_result(&mut self, result: Vec<String>) {
        self.result = result;
    }
}

} // verus!
