//! Construction of the two outbound requests of one cycle. Everything the
//! wire protocol fixes — the form field names, the login action marker, the
//! JSON command payload, the origin and referer strings, the timestamp
//! query parameter — is pinned down here by contract; the transport layer
//! only carries the finished values.

use vstd::prelude::*;
use vstd::string::StringExecFns;
use crate::config::RouterConfig;
use crate::numfmt::spec_u64_dec;
use crate::numfmt::u64_to_dec;

verus! {

/// The JSON text sent as the `jsonCfg` form field of the reboot request:
/// a fixed remote-procedure call naming the reboot command.
pub open spec fn spec_reboot_payload() -> Seq<char> {
    "{\"RPCMethod\":\"Post\",\"Parameter\":{\"CmdType\":\"HG_COMMAND_REBOOT\"}}"@
}

/// One login POST, ready for the transport: target URL, the derived
/// `Origin` and `Referer` header values, and the form body fields in order.
pub struct LoginRequest {
    pub url: String,
    pub origin: String,
    pub referer: String,
    pub form: Vec<(String, String)>,
}

/// The login form body: the device nonce, the literal action marker, the
/// login token, and the credentials, in this order.
pub open spec fn spec_is_login_form(form: Seq<(String, String)>, cfg: RouterConfig) -> bool {
    &&& form.len() == 5
    &&& form[0].0@ == "frashnum"@ && form[0].1@ == cfg.frashnum@
    &&& form[1].0@ == "action"@ && form[1].1@ == "login"@
    &&& form[2].0@ == "Frm_Logintoken"@ && form[2].1@ == cfg.login_token@
    &&& form[3].0@ == "user_name"@ && form[3].1@ == cfg.username@
    &&& form[4].0@ == "Password"@ && form[4].1@ == cfg.password@
}

/// Builds the login request: it goes to the login URL, its `Origin` is the
/// login URL's origin, its `Referer` is the login URL itself, and its body
/// is the five-field login form.
pub fn build_login_request(cfg: &RouterConfig) -> (r: LoginRequest)
    ensures
        r.url@ == cfg.login_url.spec_full(),
        r.origin@ == cfg.login_url.spec_origin(),
        r.referer@ == cfg.login_url.spec_full(),
        spec_is_login_form(r.form@, *cfg),
{
    let mut form: Vec<(String, String)> = Vec::new();
    form.push(("frashnum".to_owned(), cfg.frashnum.clone()));
    form.push(("action".to_owned(), "login".to_owned()));
    form.push(("Frm_Logintoken".to_owned(), cfg.login_token.clone()));
    form.push(("user_name".to_owned(), cfg.username.clone()));
    form.push(("Password".to_owned(), cfg.password.clone()));
    LoginRequest {
        url: cfg.login_url.full(),
        origin: cfg.login_url.origin(),
        referer: cfg.login_url.full(),
        form,
    }
}

/// One reboot POST, ready for the transport: target URL (with the optional
/// timestamp query parameter already appended), the derived `Origin` and
/// `Referer` header values, and the single-field form body.
pub struct RebootRequest {
    pub url: String,
    pub origin: String,
    pub referer: String,
    pub form: Vec<(String, String)>,
}

/// The reboot URL as sent: when `add_timestamp` is set, the configured
/// reboot URL with a `timeStamp` query parameter holding the given epoch
/// milliseconds appended — after `?` when the URL had no query, after `&`
/// when it had a non-empty one, and directly after the `?` a present but
/// empty query already contributes; otherwise the configured reboot URL
/// unchanged.
pub open spec fn spec_reboot_target(cfg: RouterConfig, now_epoch_ms: u64) -> Seq<char> {
    if cfg.add_timestamp {
        cfg.reboot_url.spec_full() + match cfg.reboot_url.query {
            Some(q) => if q@.len() == 0 {
                "timeStamp="@
            } else {
                "&timeStamp="@
            },
            None => "?timeStamp="@,
        } + spec_u64_dec(now_epoch_ms as nat)
    } else {
        cfg.reboot_url.spec_full()
    }
}

/// Builds the reboot request: it goes to the reboot URL (timestamped when
/// configured), its `Origin` is the reboot URL's origin, its `Referer` is
/// the separately configured reboot referer URL, and its body is the single
/// `jsonCfg` field holding the fixed reboot command payload.
pub fn build_reboot_request(cfg: &RouterConfig, now_epoch_ms: u64) -> (r: RebootRequest)
    ensures
        r.url@ == spec_reboot_target(*cfg, now_epoch_ms),
        r.origin@ == cfg.reboot_url.spec_origin(),
        r.referer@ == cfg.reboot_referer.spec_full(),
        r.form@.len() == 1,
        r.form@[0].0@ == "jsonCfg"@,
        r.form@[0].1@ == spec_reboot_payload(),
{
    let mut url = cfg.reboot_url.full();
    if cfg.add_timestamp {
        match &cfg.reboot_url.query {
            Some(q) => if q.as_str().is_empty() {
                url.append("timeStamp=")
            } else {
                url.append("&timeStamp=")
            },
            None => url.append("?timeStamp="),
        }
        let ts = u64_to_dec(now_epoch_ms);
        url.append(ts.as_str());
    }
    let payload = "{\"RPCMethod\":\"Post\",\"Parameter\":{\"CmdType\":\"HG_COMMAND_REBOOT\"}}"
        .to_owned();
    let mut form: Vec<(String, String)> = Vec::new();
    form.push(("jsonCfg".to_owned(), payload));
    RebootRequest {
        url,
        origin: cfg.reboot_url.origin(),
        referer: cfg.reboot_referer.full(),
        form,
    }
}

} // verus!
