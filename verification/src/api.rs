//! The Bot API client of a parent process that runs a bot process.
use vstd::prelude::*;
use vstd::string::*;
use crate::address::{Address, AddressView, ProcessId, package_text};
use crate::errors::TgError;
use crate::helpers::{OutgoingCall, api_url_of, await_timeout, body_of, frame_call, frames_call, frames_no_wait};
use crate::interface::{TgInitialize, TgRequest, UpdatesParams};

verus! {

/// An HTTP failure: its status code and message.
#[derive(Debug)]
pub struct HttpError {
    pub code: u16,
    pub message: String,
}

/// The Bot API client of a parent process: the address of its key, the
/// process it acts for, and its polling offset.
#[derive(Debug)]
pub struct Api {
    pub api_url: String,
    pub our: Address,
    pub current_offset: u32,
}

/// How to start a bot process: where its code is, the parent's own client,
/// and the two requests to send to the new process, in this order: the
/// registration of the key, then the parent's subscription to the updates.
#[derive(Debug)]
pub struct TgBotSetup {
    pub wasm_path: String,
    pub api: Api,
    pub register: TgRequest,
    pub subscribe: TgRequest,
}

/// The path of the bot's code inside the package of `our`.
pub open spec fn wasm_path_of(our: AddressView) -> Seq<char> {
    package_text(our.package_name, our.publisher_node) + "/pkg/tg.wasm"@
}

impl Api {
    /// A client for the key `api_key`, acting for `our`, polling from offset 0.
    pub fn new(api_key: &str, our: Address) -> (res: Api)
        ensures
            res.api_url@ == api_url_of(api_key@),
            res.our@ == our@,
            res.current_offset == 0,
    {
        let api_url = String::from_str("https://api.telegram.org/bot").concat(api_key);
        Api { api_url, our, current_offset: 0 }
    }

    /// The call to `method` whose reply is waited for, with the already
    /// encoded parameters (an empty body without them) and a 30 second timeout.
    pub fn request_call(&self, method: &str, params_json: Option<Vec<u8>>) -> (res: Result<OutgoingCall, TgError>)
        ensures
            frames_call(res, self.api_url@, method@, body_of(params_json), await_timeout()),
    {
        let body = match params_json {
            Some(b) => b,
            None => Vec::new(),
        };
        frame_call(self.api_url.as_str(), method, body, 30)
    }

    /// The call to `method` whose reply is not waited for, with the already
    /// encoded parameters (an empty body without them) and a 20 second timeout.
    pub fn request_no_wait(&self, method: &str, params_json: Option<Vec<u8>>) -> (res: Result<OutgoingCall, TgError>)
        ensures
            frames_no_wait(res, self.api_url@, method@, params_json),
    {
        let body = match params_json {
            Some(b) => b,
            None => Vec::new(),
        };
        frame_call(self.api_url.as_str(), method, body, 20)
    }
}

/// How to start a bot process for `our` with the key `token`.
pub fn prepare_tg_bot(
    our: &Address,
    token: &str,
    params: Option<UpdatesParams>,
) -> (res: TgBotSetup)
    ensures
        res.wasm_path@ == wasm_path_of(our@),
        res.api.api_url@ == api_url_of(token@),
        res.api.our@ == our@,
        res.api.current_offset == 0,
        res.register matches TgRequest::RegisterApiKey(init) && init.token@ == token@ && init.params
            == params,
        res.subscribe is Subscribe,
{
    let wasm_path = our.process.package_id_text().concat("/pkg/tg.wasm");
    let api = Api::new(token, our.duplicate());
    let init = TgInitialize { token: String::from_str(token), params };
    TgBotSetup { wasm_path, api, register: TgRequest::RegisterApiKey(init), subscribe: TgRequest::Subscribe }
}

/// The address of the bot process spawned as `process` on the node of `our`.
pub fn worker_address(our: &Address, process: ProcessId) -> (res: Address)
    ensures
        res.node@ == our.node@,
        res.process.process_name@ == process.process_name@,
        res.process.package_name@ == process.package_name@,
        res.process.publisher_node@ == process.publisher_node@,
{
    Address { node: our.node.clone(), process }
}

} // verus!
