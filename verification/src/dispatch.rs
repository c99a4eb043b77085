//! Dispatcher decisions: from a request's module identifier and
//! parameters to a status code and response body.

use vstd::prelude::*;
use vstd::string::StringExecFns;

use crate::errors::InvokeError;
use crate::invoke;
use crate::params::ParamMap;

verus! {

/// The filesystem artifact that a module identifier resolves to: the
/// identifier with the module suffix appended.
pub fn module_file_name(name: &str) -> (r: String)
    ensures
        r@ == name@ + ".wasm"@,
{
    let mut file: String = name.to_owned();
    file.append(".wasm");
    file
}

/// Render an invocation result as a status code and response body: the
/// decoded output under the success status, or else the failure's own
/// status — never the success status — and its text.
pub fn render_response(result: &Result<String, InvokeError>) -> (resp: (u16, String))
    ensures
        (result matches Ok(text) ==> resp.0 == 200 && resp.1@ == text@),
        (result matches Err(e) ==> resp.0 == e.spec_status() && resp.0 != 200 && resp.1@
            == e.spec_describe()),
{
    match result {
        Ok(text) => (200, text.clone()),
        Err(e) => (e.status(), e.describe().to_owned()),
    }
}

/// Serve one request: resolve the identifier to its module file, invoke
/// it with the given parameters and execution budget, and render the
/// outcome.  The success status carries the invocation's text; every
/// other response carries some failure's own status and text.
pub fn handle_request(module_name: &str, params: &ParamMap, budget: u64) -> (resp: (u16, String))
    ensures
        resp.0 == 200 || resp.0 == 404 || resp.0 == 500,
        resp.0 == 404 ==> resp.1@ == InvokeError::Resolution.spec_describe(),
        resp.0 != 200 ==> exists|e: InvokeError|
            resp.0 == #[trigger] e.spec_status() && resp.1@ == e.spec_describe(),
{
    let file = module_file_name(module_name);
    let result = invoke::invoke_module(&file, params, budget);
    let resp = render_response(&result);
    proof {
        if result is Err {
            let e = result->Err_0;
            assert(resp.0 == e.spec_status() && resp.1@ == e.spec_describe());
        }
    }
    resp
}

} // verus!
