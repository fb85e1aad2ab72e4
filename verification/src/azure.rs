//! Classifying the outcome of an account-listing call to the cloud CLI.
//! Running the CLI and parsing its JSON are the host layer's concern; the
//! classification of its exit status and streams is decided here.

use vstd::prelude::*;
use vstd::string::*;

use crate::text::{contains_sub, is_substring_of, lower, to_lower};

verus! {

/// One subscription of the signed-in account.
#[derive(Debug)]
pub struct AzSubscription {
    pub id: String,
    pub name: String,
    pub tenant_id: String,
    pub is_default: bool,
    pub state: String,
}

impl Clone for AzSubscription {
    fn clone(&self) -> (r: Self)
        ensures
            r == *self,
    {
        AzSubscription {
            id: self.id.clone(),
            name: self.name.clone(),
            tenant_id: self.tenant_id.clone(),
            is_default: self.is_default,
            state: self.state.clone(),
        }
    }
}

/// The outcome of listing subscriptions; `status` encodes it, never an
/// error return.
#[derive(Debug)]
pub struct AzListResult {
    pub status: String,
    pub subscriptions: Vec<AzSubscription>,
    pub error: Option<String>,
}

/// What the CLI's streams show before any JSON parsing is attempted.
#[derive(Clone, Copy, Debug, PartialEq, Eq, Structural)]
pub enum AzProbe {
    /// The account is not signed in.
    NotLoggedIn,
    /// Signed in, but no subscription is visible.
    NoSubscriptions,
    /// The standard output should be parsed as a subscription list.
    NeedsParse,
}

/// The lowered stderr indicates a sign-in problem.
pub open spec fn stderr_not_logged_in(e: Seq<char>) -> bool {
    ||| is_substring_of("az login"@, e)
    ||| is_substring_of("please run"@, e)
    ||| is_substring_of("aadsts"@, e)
    ||| is_substring_of("not logged"@, e)
}

/// ASCII whitespace.
pub open spec fn is_ws(c: char) -> bool {
    c == ' ' || c == '\t' || c == '\n' || c == '\r'
}

/// The string holds nothing but ASCII whitespace.
pub open spec fn blank(s: Seq<char>) -> bool {
    forall|i: int| 0 <= i < s.len() ==> is_ws(#[trigger] s[i])
}

/// Classifies the CLI's exit status and streams: a sign-in complaint on
/// stderr wins, then a no-subscriptions warning, then a failed exit with a
/// blank stdout counts as not signed in; otherwise stdout should be parsed.
pub fn classify_az_streams(exit_success: bool, stderr: &str, stdout: &str) -> (r: AzProbe)
    ensures
        r == (if stderr_not_logged_in(lower(stderr@)) {
            AzProbe::NotLoggedIn
        } else if is_substring_of("no subscriptions found"@, lower(stderr@)) {
            AzProbe::NoSubscriptions
        } else if !exit_success && blank(stdout@) {
            AzProbe::NotLoggedIn
        } else {
            AzProbe::NeedsParse
        }),
{
    let stderr_l = to_lower(stderr);
    let not_logged_in = contains_sub(stderr_l.as_str(), "az login") || contains_sub(
        stderr_l.as_str(),
        "please run",
    ) || contains_sub(stderr_l.as_str(), "aadsts") || contains_sub(
        stderr_l.as_str(),
        "not logged",
    );
    if not_logged_in {
        return AzProbe::NotLoggedIn;
    }
    if contains_sub(stderr_l.as_str(), "no subscriptions found") {
        return AzProbe::NoSubscriptions;
    }
    if !exit_success && stdout_blank(stdout) {
        return AzProbe::NotLoggedIn;
    }
    AzProbe::NeedsParse
}

/// Whether the string holds nothing but ASCII whitespace.
fn stdout_blank(s: &str) -> (r: bool)
    ensures
        r == blank(s@),
{
    let n = s.unicode_len();
    let mut i: usize = 0;
    while i < n
        invariant
            n == s@.len(),
            i <= n,
            forall|j: int| 0 <= j < i ==> is_ws(#[trigger] s@[j]),
        decreases n - i,
    {
        let c = s.get_char(i);
        if !(c == ' ' || c == '\t' || c == '\n' || c == '\r') {
            return false;
        }
        i = i + 1;
    }
    true
}

/// Builds the listing result from a probe and, when parsing was needed,
/// the parse outcome: an empty list means no subscriptions, a parse error
/// is reported as an error status, anything else is success.
pub fn az_list_result(probe: AzProbe, parsed: Option<Vec<AzSubscription>>, parse_err: Option<
    String,
>) -> (r: AzListResult)
    ensures
        match probe {
            AzProbe::NotLoggedIn => r.status@ == "not_logged_in"@ && r.subscriptions@.len() == 0
                && r.error is None,
            AzProbe::NoSubscriptions => r.status@ == "no_subscriptions"@
                && r.subscriptions@.len() == 0 && r.error is None,
            AzProbe::NeedsParse => match parsed {
                Some(subs) => if subs@.len() == 0 {
                    r.status@ == "no_subscriptions"@ && r.subscriptions@.len() == 0
                        && r.error is None
                } else {
                    r.status@ == "ok"@ && r.subscriptions@ == subs@ && r.error is None
                },
                None => r.status@ == "error"@ && r.subscriptions@.len() == 0 && r.error
                    == parse_err,
            },
        },
{
    match probe {
        AzProbe::NotLoggedIn => AzListResult {
            status: String::from_str("not_logged_in"),
            subscriptions: Vec::new(),
            error: None,
        },
        AzProbe::NoSubscriptions => AzListResult {
            status: String::from_str("no_subscriptions"),
            subscriptions: Vec::new(),
            error: None,
        },
        AzProbe::NeedsParse => match parsed {
            Some(subs) => {
                if subs.len() == 0 {
                    AzListResult {
                        status: String::from_str("no_subscriptions"),
                        subscriptions: Vec::new(),
                        error: None,
                    }
                } else {
                    AzListResult {
                        status: String::from_str("ok"),
                        subscriptions: subs,
                        error: None,
                    }
                }
            },
            None => AzListResult {
                status: String::from_str("error"),
                subscriptions: Vec::new(),
                error: parse_err,
            },
        },
    }
}

} // verus!
