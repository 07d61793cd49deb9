//! Classifying a failed model request and wording the error its caller
//! sees. The failure arrives as plain values: the chain of error texts and
//! kind flags that the host program read off the underlying error.

use vstd::prelude::*;
use vstd::string::StringExecFns;

use crate::text::contains_chars;
use crate::text::contains_seq;
use crate::text::lower_ascii;
use crate::text::lower_chars;
use crate::text::str_chars;
use crate::text::u64_string;
use crate::text::dec_digits;

verus! {

/// One error in a source chain, as plain values: its rendered text, and
/// whether it is an I/O error of the connection-refused or timed-out kind.
#[derive(Debug)]
pub struct ErrorLink {
    pub message: String,
    pub is_connection_refused_kind: bool,
    pub is_timed_out_kind: bool,
}

/// Whether this link reports a refused connection, by kind or by wording.
pub open spec fn link_refused(l: ErrorLink) -> bool {
    l.is_connection_refused_kind || contains_seq(lower_ascii(l.message@), "connection refused"@)
}

/// Whether this link reports a timeout, by kind or by wording.
pub open spec fn link_timed_out(l: ErrorLink) -> bool {
    l.is_timed_out_kind || contains_seq(lower_ascii(l.message@), "timed out"@)
}

/// Whether any error in the chain reports a refused connection.
pub fn error_chain_has_connection_refused(chain: &Vec<ErrorLink>) -> (b: bool)
    ensures
        b == exists|i: int| 0 <= i < chain@.len() && link_refused(#[trigger] chain@[i]),
{
    let mut i: usize = 0;
    while i < chain.len()
        invariant
            i <= chain@.len(),
            forall|j: int| 0 <= j < i ==> !link_refused(#[trigger] chain@[j]),
        decreases chain@.len() - i,
    {
        let link = &chain[i];
        if link.is_connection_refused_kind {
            return true;
        }
        let lowered = lower_chars(&str_chars(link.message.as_str()));
        if contains_chars(&lowered, "connection refused") {
            return true;
        }
        i = i + 1;
    }
    false
}

/// Whether any error in the chain reports a timeout.
pub fn error_chain_has_timeout(chain: &Vec<ErrorLink>) -> (b: bool)
    ensures
        b == exists|i: int| 0 <= i < chain@.len() && link_timed_out(#[trigger] chain@[i]),
{
    let mut i: usize = 0;
    while i < chain.len()
        invariant
            i <= chain@.len(),
            forall|j: int| 0 <= j < i ==> !link_timed_out(#[trigger] chain@[j]),
        decreases chain@.len() - i,
    {
        let link = &chain[i];
        if link.is_timed_out_kind {
            return true;
        }
        let lowered = lower_chars(&str_chars(link.message.as_str()));
        if contains_chars(&lowered, "timed out") {
            return true;
        }
        i = i + 1;
    }
    false
}

/// The wording of a failed model request: a timeout anywhere in the chain
/// names the timeout setting; a refused or failed connection names the base
/// URL; anything else carries the raw error text.
pub open spec fn request_error_text(
    is_timeout: bool,
    is_connect: bool,
    chain_timed_out: bool,
    chain_refused: bool,
    err_text: Seq<char>,
    api_url: Seq<char>,
    timeout_secs: u64,
) -> Seq<char> {
    if is_timeout || chain_timed_out {
        "Model request timed out after "@ + dec_digits(timeout_secs as nat) + "s while calling '"@
            + api_url + "'. Increase MODEL_TIMEOUT_SECS or check model responsiveness."@
    } else if is_connect && chain_refused {
        "Connection refused by model API at '"@ + api_url
            + "'. Ensure the model provider is running and MODEL_BASE_URL is correct."@
    } else if is_connect {
        "Failed to connect to model API at '"@ + api_url
            + "'. Check MODEL_BASE_URL and network connectivity."@
    } else {
        "Failed to call model API at '"@ + api_url + "': "@ + err_text
    }
}

/// Words the error of a failed model request. `is_timeout` and
/// `is_connect` are the transport's own verdict on the failure; `chain` is
/// its source chain; `err_text` its rendered text.
pub fn model_api_request_error(
    is_timeout: bool,
    is_connect: bool,
    chain: &Vec<ErrorLink>,
    err_text: &str,
    api_url: &str,
    timeout_secs: u64,
) -> (r: String)
    ensures
        r@ == request_error_text(
            is_timeout,
            is_connect,
            exists|i: int| 0 <= i < chain@.len() && link_timed_out(#[trigger] chain@[i]),
            exists|i: int| 0 <= i < chain@.len() && link_refused(#[trigger] chain@[i]),
            err_text@,
            api_url@,
            timeout_secs,
        ),
{
    let ghost ct = exists|i: int| 0 <= i < chain@.len() && link_timed_out(#[trigger] chain@[i]);
    let ghost cr = exists|i: int| 0 <= i < chain@.len() && link_refused(#[trigger] chain@[i]);
    if is_timeout || error_chain_has_timeout(chain) {
        let mut r = String::from_str("Model request timed out after ");
        let digits = u64_string(timeout_secs);
        r.append(digits.as_str());
        r.append("s while calling '");
        r.append(api_url);
        r.append("'. Increase MODEL_TIMEOUT_SECS or check model responsiveness.");
        proof {
            assert(r@ =~= request_error_text(
                is_timeout,
                is_connect,
                ct,
                cr,
                err_text@,
                api_url@,
                timeout_secs,
            ));
        }
        r
    } else if is_connect && error_chain_has_connection_refused(chain) {
        let mut r = String::from_str("Connection refused by model API at '");
        r.append(api_url);
        r.append("'. Ensure the model provider is running and MODEL_BASE_URL is correct.");
        proof {
            assert(r@ =~= request_error_text(
                is_timeout,
                is_connect,
                ct,
                cr,
                err_text@,
                api_url@,
                timeout_secs,
            ));
        }
        r
    } else if is_connect {
        let mut r = String::from_str("Failed to connect to model API at '");
        r.append(api_url);
        r.append("'. Check MODEL_BASE_URL and network connectivity.");
        proof {
            assert(r@ =~= request_error_text(
                is_timeout,
                is_connect,
                ct,
                cr,
                err_text@,
                api_url@,
                timeout_secs,
            ));
        }
        r
    } else {
        let mut r = String::from_str("Failed to call model API at '");
        r.append(api_url);
        r.append("': ");
        r.append(err_text);
        proof {
            assert(r@ =~= request_error_text(
                is_timeout,
                is_connect,
                ct,
                cr,
                err_text@,
                api_url@,
                timeout_secs,
            ));
        }
        r
    }
}

} // verus!
