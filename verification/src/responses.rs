//! The answers to traffic control and interface control requests, from
//! what the request asked and how carrying it out went.
//!
//! Carrying the request out, and sending the answer, are left to the
//! caller.
use vstd::prelude::*;
use crate::tc_config::TcConfiguration;
use crate::text::{has_suffix, owned, push_str};

verus! {

/// The answer to an interface control request.
#[derive(Debug, Clone)]
pub struct InterfaceControlResponse {
    pub success: bool,
    pub message: String,
    /// Whether the interface is up afterwards, as far as the backend knows.
    pub new_state: bool,
    pub error_code: Option<i32>,
}

/// The message answering an interface control request: the interface
/// enabled or disabled in its namespace, or the failure.
pub open spec fn interface_message(
    enable: bool,
    namespace: Seq<char>,
    interface: Seq<char>,
    error: Option<Seq<char>>,
) -> Seq<char> {
    match error {
        None => "Interface "@ + interface + (if enable {
            " enabled"@
        } else {
            " disabled"@
        }) + " successfully in namespace "@ + namespace,
        Some(e) => (if enable {
            "Failed to enable interface: "@
        } else {
            "Failed to disable interface: "@
        }) + e,
    }
}

/// The answer to a request to enable (`enable`) or disable an interface,
/// given the error of carrying it out, if any: on success the interface is
/// in the requested state; on failure it is taken to be in the other one,
/// and the error code is -1.
pub fn interface_control_response(
    enable: bool,
    namespace: &str,
    interface: &str,
    error: Option<&str>,
) -> (r: InterfaceControlResponse)
    ensures
        r.success == (error is None),
        r.message@ == interface_message(enable, namespace@, interface@, crate::text::opt_view(error)),
        r.new_state == (if error is None {
            enable
        } else {
            !enable
        }),
        r.error_code == (if error is None {
            None::<i32>
        } else {
            Some(-1i32)
        }),
{
    match error {
        None => {
            let mut m = owned("Interface ");
            push_str(&mut m, interface);
            if enable {
                push_str(&mut m, " enabled");
            } else {
                push_str(&mut m, " disabled");
            }
            push_str(&mut m, " successfully in namespace ");
            push_str(&mut m, namespace);
            InterfaceControlResponse { success: true, message: m, new_state: enable, error_code: None }
        },
        Some(e) => {
            let mut m = if enable {
                owned("Failed to enable interface: ")
            } else {
                owned("Failed to disable interface: ")
            };
            push_str(&mut m, e);
            InterfaceControlResponse {
                success: false,
                message: m,
                new_state: !enable,
                error_code: Some(-1),
            }
        },
    }
}

/// What a traffic control request asked for.
#[derive(Debug, Clone, Copy, PartialEq, Eq, Structural)]
pub enum TcQueryOp {
    /// Install a structured netem configuration.
    ApplyConfig,
    /// Install flat parameters; when none of them asks for an effect
    /// (`meaningful` false) the qdisc is removed instead.
    Apply { meaningful: bool },
    /// Remove the qdisc.
    Remove,
}

/// The answer to a traffic control request.
#[derive(Debug, Clone)]
pub struct TcResponse {
    pub success: bool,
    pub message: String,
    /// The configuration now in place, after an installation.
    pub applied_config: Option<TcConfiguration>,
    pub error_code: Option<i32>,
}

/// Whether a request installs a configuration (rather than removing one).
pub open spec fn installs(op: TcQueryOp) -> bool {
    match op {
        TcQueryOp::ApplyConfig => true,
        TcQueryOp::Apply { meaningful } => meaningful,
        TcQueryOp::Remove => false,
    }
}

/// The message answering a traffic control request.
pub open spec fn tc_message(
    op: TcQueryOp,
    namespace: Seq<char>,
    interface: Seq<char>,
    error: Option<Seq<char>>,
) -> Seq<char> {
    let at = namespace + ":"@ + interface;
    match error {
        None => match op {
            TcQueryOp::ApplyConfig => "Structured TC config applied successfully to "@ + at,
            TcQueryOp::Apply { meaningful } => if meaningful {
                "TC applied successfully to "@ + at
            } else {
                "TC removed from "@ + at + " (no meaningful parameters)"@
            },
            TcQueryOp::Remove => "TC removed successfully from "@ + at,
        },
        Some(e) => match op {
            TcQueryOp::ApplyConfig => "Failed to apply structured TC config: "@ + e,
            TcQueryOp::Apply { meaningful } => (if meaningful {
                "Failed to apply TC: "@
            } else {
                "Failed to remove TC: "@
            }) + e,
            TcQueryOp::Remove => "Failed to remove TC: "@ + e,
        },
    }
}

/// The answer to a traffic control request, given the configuration an
/// installation put in place and the error of carrying the request out, if
/// any: a success reports the configuration when the request installed
/// one; a failure reports no configuration and the error code -1.
pub fn tc_query_response(
    op: TcQueryOp,
    namespace: &str,
    interface: &str,
    applied: Option<TcConfiguration>,
    error: Option<&str>,
) -> (r: TcResponse)
    ensures
        r.success == (error is None),
        r.message@ == tc_message(op, namespace@, interface@, crate::text::opt_view(error)),
        r.applied_config == (if error is None && installs(op) {
            applied
        } else {
            None::<TcConfiguration>
        }),
        r.error_code == (if error is None {
            None::<i32>
        } else {
            Some(-1i32)
        }),
{
    match error {
        None => {
            let (mut m, keep) = match op {
                TcQueryOp::ApplyConfig => (owned("Structured TC config applied successfully to "), true),
                TcQueryOp::Apply { meaningful } => {
                    if meaningful {
                        (owned("TC applied successfully to "), true)
                    } else {
                        (owned("TC removed from "), false)
                    }
                },
                TcQueryOp::Remove => (owned("TC removed successfully from "), false),
            };
            push_str(&mut m, namespace);
            push_str(&mut m, ":");
            push_str(&mut m, interface);
            if op == (TcQueryOp::Apply { meaningful: false }) {
                push_str(&mut m, " (no meaningful parameters)");
            }
            TcResponse {
                success: true,
                message: m,
                applied_config: if keep {
                    applied
                } else {
                    None
                },
                error_code: None,
            }
        },
        Some(e) => {
            let mut m = match op {
                TcQueryOp::ApplyConfig => owned("Failed to apply structured TC config: "),
                TcQueryOp::Apply { meaningful } => {
                    if meaningful {
                        owned("Failed to apply TC: ")
                    } else {
                        owned("Failed to remove TC: ")
                    }
                },
                TcQueryOp::Remove => owned("Failed to remove TC: "),
            };
            push_str(&mut m, e);
            TcResponse { success: false, message: m, applied_config: None, error_code: Some(-1) }
        },
    }
}

/// The message answering a refused traffic control request ends with the
/// reason it was refused, whatever the request asked for.
pub proof fn law_refusal_names_the_reason(
    op: TcQueryOp,
    namespace: Seq<char>,
    interface: Seq<char>,
    reason: Seq<char>,
)
    ensures
        has_suffix(tc_message(op, namespace, interface, Some(reason)), reason),
{
    let m = tc_message(op, namespace, interface, Some(reason));
    assert(m.subrange(m.len() - reason.len(), m.len() as int) =~= reason);
}

} // verus!
