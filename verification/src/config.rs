//! Settings read at start: leader and wrapper lists, block-engine URLs, the execution mode,
//! and the Jito tip account.
use crate::address::{address_of, axiom_program, contains_address, lemma_address_of_view, spec_axiom_program, Address};
use crate::sdk::{parse_pubkey, spec_parse_pubkey};
use crate::text::{concat, spec_trim, trim};
use vstd::prelude::*;

verus! {

/// The set a list of base58 addresses names: each item trimmed, blank items skipped; the
/// first item that does not parse is reported (trimmed).
pub open spec fn spec_parse_pubkeys(items: Seq<Seq<char>>) -> Result<Set<Address>, Seq<char>>
    decreases items.len(),
{
    if items.len() == 0 {
        Ok(Set::empty())
    } else {
        match spec_parse_pubkeys(items.drop_last()) {
            Err(e) => Err(e),
            Ok(set) => {
                let t = spec_trim(items.last());
                if t.len() == 0 {
                    Ok(set)
                } else {
                    match spec_parse_pubkey(t) {
                        None => Err(t),
                        Some(b) => Ok(set.insert(address_of(b))),
                    }
                }
            },
        }
    }
}

/// An error in a prefix of the list is the list's error.
proof fn lemma_parse_err_persists(items: Seq<Seq<char>>, k: int)
    requires
        0 <= k <= items.len(),
        spec_parse_pubkeys(items.take(k)) is Err,
    ensures
        spec_parse_pubkeys(items) == spec_parse_pubkeys(items.take(k)),
    decreases items.len() - k,
{
    if k < items.len() {
        let t = items.take(k + 1);
        assert(t.drop_last() =~= items.take(k));
        lemma_parse_err_persists(items, k + 1);
    } else {
        assert(items.take(k) =~= items);
    }
}

/// The texts of a list of strings.
pub open spec fn strings_view(items: Seq<String>) -> Seq<Seq<char>> {
    items.map_values(|s: String| s@)
}

/// Whether a parsed list holds, without repeats, the set that the texts name, or the error
/// with `prefix`.
pub open spec fn pubkey_list_is(r: Result<Vec<Address>, String>, items: Seq<String>, prefix: Seq<char>) -> bool {
    match spec_parse_pubkeys(strings_view(items)) {
        Ok(set) => r matches Ok(v) && v@.no_duplicates() && v@.to_set() == set,
        Err(t) => r matches Err(m) && m@ == prefix + t,
    }
}

/// Parses a list of base58 addresses into a list without repeats.
fn parse_pubkey_set(items: &Vec<String>, prefix: &str) -> (r: Result<Vec<Address>, String>)
    ensures
        pubkey_list_is(r, items@, prefix@),
{
    let ghost texts = strings_view(items@);
    let mut out: Vec<Address> = Vec::new();
    assert(texts.take(0).len() == 0);
    assert(out@.to_set() =~= Set::<Address>::empty());
    let mut i: usize = 0;
    while i < items.len()
        invariant
            texts == strings_view(items@),
            0 <= i <= items@.len(),
            out@.no_duplicates(),
            spec_parse_pubkeys(texts.take(i as int)) == Ok::<Set<Address>, Seq<char>>(out@.to_set()),
        decreases items.len() - i,
    {
        let ghost prev = out@;
        proof {
            let t = texts.take(i + 1);
            assert(t.drop_last() =~= texts.take(i as int));
            assert(t.last() == items@[i as int]@);
        }
        let t = trim(items[i].as_str());
        if t.as_str().unicode_len() > 0 {
            match parse_pubkey(t.as_str()) {
                None => {
                    proof {
                        lemma_parse_err_persists(texts, i + 1);
                    }
                    return Err(concat(prefix, t.as_str()));
                },
                Some(a) => {
                    proof {
                        lemma_address_of_view(a);
                    }
                    if !contains_address(&out, &a) {
                        out.push(a);
                        proof {
                            prev.lemma_push_to_set_commute(a);
                            assert forall|x: int, y: int| 0 <= x < y < out@.len() implies out@[x] != out@[y] by {
                                if y == out@.len() - 1 {
                                    assert(prev.contains(out@[x]));
                                }
                            }
                        }
                    } else {
                        proof {
                            assert(prev.to_set().insert(a) =~= prev.to_set());
                        }
                    }
                },
            }
        }
        i = i + 1;
    }
    assert(texts.take(i as int) =~= texts);
    Ok(out)
}

/// Parses the leader wallets.
pub fn parse_leaders(list: &Vec<String>) -> (r: Result<Vec<Address>, String>)
    ensures
        pubkey_list_is(r, list@, "invalid leader pubkey: "@),
{
    parse_pubkey_set(list, "invalid leader pubkey: ")
}

/// Parses a list of program addresses.
pub fn parse_pubkey_list(list: &Vec<String>) -> (r: Result<Vec<Address>, String>)
    ensures
        pubkey_list_is(r, list@, "invalid pubkey: "@),
{
    parse_pubkey_set(list, "invalid pubkey: ")
}

/// The wrapper allow-list: the configured programs, always with the Axiom wrapper (common
/// for platform leaders).
pub fn wrapper_allowlist(list: &Vec<String>) -> (r: Result<Vec<Address>, String>)
    ensures
        match spec_parse_pubkeys(strings_view(list@)) {
            Ok(set) => r matches Ok(v) && v@.no_duplicates() && v@.to_set() == set.insert(spec_axiom_program()),
            Err(t) => r matches Err(m) && m@ == "invalid pubkey: "@ + t,
        },
{
    let mut ids = match parse_pubkey_list(list) {
        Ok(v) => v,
        Err(e) => return Err(e),
    };
    let wrapper_id = axiom_program();
    let ghost prev = ids@;
    if !contains_address(&ids, &wrapper_id) {
        ids.push(wrapper_id);
        proof {
            prev.lemma_push_to_set_commute(wrapper_id);
            assert forall|x: int, y: int| 0 <= x < y < ids@.len() implies ids@[x] != ids@[y] by {
                if y == ids@.len() - 1 {
                    assert(prev.contains(ids@[x]));
                }
            }
        }
    } else {
        assert(prev.to_set().insert(wrapper_id) =~= prev.to_set());
    }
    Ok(ids)
}

/// The items of a list, trimmed, without the blank ones.
pub open spec fn spec_trimmed_nonblank(items: Seq<Seq<char>>) -> Seq<Seq<char>>
    decreases items.len(),
{
    if items.len() == 0 {
        Seq::empty()
    } else {
        let t = spec_trim(items.last());
        spec_trimmed_nonblank(items.drop_last()) + if t.len() == 0 { Seq::empty() } else { seq![t] }
    }
}

/// Trims every item of a list and drops the blank ones (shredstream URLs, block-engine
/// URLs).
pub fn trimmed_nonblank(items: &Vec<String>) -> (r: Vec<String>)
    ensures
        strings_view(r@) == spec_trimmed_nonblank(strings_view(items@)),
{
    let ghost texts = strings_view(items@);
    let mut out: Vec<String> = Vec::new();
    let mut i: usize = 0;
    while i < items.len()
        invariant
            texts == strings_view(items@),
            0 <= i <= items@.len(),
            strings_view(out@) == spec_trimmed_nonblank(texts.take(i as int)),
        decreases items.len() - i,
    {
        proof {
            let t = texts.take(i + 1);
            assert(t.drop_last() =~= texts.take(i as int));
            assert(t.last() == items@[i as int]@);
        }
        let t = trim(items[i].as_str());
        if t.as_str().unicode_len() > 0 {
            let ghost tv = t@;
            out.push(t);
            assert(strings_view(out@) =~= spec_trimmed_nonblank(texts.take(i as int)) + seq![tv]);
        } else {
            assert(spec_trimmed_nonblank(texts.take(i as int)) + Seq::<Seq<char>>::empty() =~= spec_trimmed_nonblank(texts.take(i as int)));
        }
        i = i + 1;
    }
    assert(texts.take(i as int) =~= texts);
    out
}

/// The block engines to use: the configured list, or the single primary URL when the list
/// is empty; trimmed, blank ones dropped.
pub open spec fn spec_block_engine_urls(urls: Seq<Seq<char>>, primary: Seq<char>) -> Seq<Seq<char>> {
    spec_trimmed_nonblank(if urls.len() == 0 { seq![primary] } else { urls })
}

/// Lists the block engines to use.
pub fn block_engine_urls(urls: &Vec<String>, primary: &str) -> (r: Vec<String>)
    ensures
        strings_view(r@) == spec_block_engine_urls(strings_view(urls@), primary@),
{
    if urls.len() == 0 {
        let mut one: Vec<String> = Vec::new();
        one.push(primary.to_string());
        assert(strings_view(one@) =~= seq![primary@]);
        trimmed_nonblank(&one)
    } else {
        trimmed_nonblank(urls)
    }
}

/// The execution mode (`EXECUTION_MODE`).
#[derive(Clone, Debug)]
pub enum ExecutionMode {
    /// Log signals only.
    Log,
    /// Submit a 1-lamport self-transfer per signal, to test submission.
    Demo,
    /// Submit the mirrored buy as a Jito bundle.
    BundlePumpbuy,
    /// Any other setting (refused per signal).
    Unknown(String),
}

/// The mode a setting names.
pub open spec fn spec_execution_mode_is(text: Seq<char>, m: ExecutionMode) -> bool {
    if text == "log"@ {
        m is Log
    } else if text == "demo"@ {
        m is Demo
    } else if text == "bundle_pumpbuy"@ {
        m is BundlePumpbuy
    } else {
        m matches ExecutionMode::Unknown(t) && t@ == text
    }
}

/// Whether two texts are equal.
fn same_text(a: &str, b: &str) -> (r: bool)
    ensures
        r == (a@ == b@),
{
    let n = a.unicode_len();
    if n != b.unicode_len() {
        return false;
    }
    let mut i: usize = 0;
    while i < n
        invariant
            n == a@.len(),
            n == b@.len(),
            0 <= i <= n,
            forall|k: int| 0 <= k < i ==> a@[k] == b@[k],
        decreases n - i,
    {
        if a.get_char(i) != b.get_char(i) {
            return false;
        }
        i = i + 1;
    }
    assert(a@ =~= b@);
    true
}

impl ExecutionMode {
    /// Reads the execution mode setting.
    pub fn parse(text: &str) -> (r: ExecutionMode)
        ensures
            spec_execution_mode_is(text@, r),
    {
        if same_text(text, "log") {
            ExecutionMode::Log
        } else if same_text(text, "demo") {
            ExecutionMode::Demo
        } else if same_text(text, "bundle_pumpbuy") {
            ExecutionMode::BundlePumpbuy
        } else {
            ExecutionMode::Unknown(text.to_string())
        }
    }
}

/// Jito is wanted when `USE_JITO` is on, and always in the demo and bundle modes.
pub fn want_jito(use_jito: bool, mode: &ExecutionMode) -> (r: bool)
    ensures
        r == (use_jito || mode is Demo || mode is BundlePumpbuy),
{
    match mode {
        ExecutionMode::Demo => true,
        ExecutionMode::BundlePumpbuy => true,
        _ => use_jito,
    }
}

/// Why the tip account could not be settled.
#[derive(Clone, Debug)]
pub enum TipAccountError {
    /// `JITO_TIP_ACCOUNT` does not parse (the trimmed text).
    InvalidConfigured(String),
    /// `getTipAccounts` gave no accounts.
    NoTipAccounts,
    /// The picked `getTipAccounts` entry does not parse (its text).
    InvalidFromJito(String),
    /// Bundle mode without any block engine.
    BundleNeedsJito,
}

/// How the tip account is settled.
#[derive(Clone, Debug)]
pub enum TipAccountPlan {
    /// This account (the zero address when Jito is not used).
    Account(Address),
    /// Ask the first block engine's `getTipAccounts`, then call `pick_tip_account`.
    AskJito,
    /// Refused.
    Failed(TipAccountError),
}

/// Settles the tip account: none (zero) without Jito; the configured one when set (it
/// must parse); else one of the first block engine's tip accounts; with no block engine,
/// an error in bundle mode and zero otherwise.
pub fn tip_account_plan(want_jito: bool, configured: &str, jito_clients: usize, mode: &ExecutionMode) -> (r: TipAccountPlan)
    ensures
        !want_jito ==> (r matches TipAccountPlan::Account(a) && a == Address::spec_zero()),
        want_jito && spec_trim(configured@).len() > 0 ==> match spec_parse_pubkey(spec_trim(configured@)) {
            Some(b) => r matches TipAccountPlan::Account(a) && a@ == b,
            None => r matches TipAccountPlan::Failed(TipAccountError::InvalidConfigured(t)) && t@ == spec_trim(configured@),
        },
        want_jito && spec_trim(configured@).len() == 0 && jito_clients > 0 ==> r is AskJito,
        want_jito && spec_trim(configured@).len() == 0 && jito_clients == 0 && mode is BundlePumpbuy
            ==> (r matches TipAccountPlan::Failed(e) && e is BundleNeedsJito),
        want_jito && spec_trim(configured@).len() == 0 && jito_clients == 0 && !(mode is BundlePumpbuy)
            ==> (r matches TipAccountPlan::Account(a) && a == Address::spec_zero()),
{
    if !want_jito {
        return TipAccountPlan::Account(Address::zero());
    }
    let t = trim(configured);
    if t.as_str().unicode_len() > 0 {
        return match parse_pubkey(t.as_str()) {
            Some(a) => TipAccountPlan::Account(a),
            None => TipAccountPlan::Failed(TipAccountError::InvalidConfigured(t)),
        };
    }
    if jito_clients > 0 {
        return TipAccountPlan::AskJito;
    }
    match mode {
        ExecutionMode::BundlePumpbuy => TipAccountPlan::Failed(TipAccountError::BundleNeedsJito),
        _ => TipAccountPlan::Account(Address::zero()),
    }
}

/// Picks one of the block engine's tip accounts by a clock reading (nanoseconds within the
/// second, modulo their count); refused when there are none or the pick does not parse.
pub fn pick_tip_account(tips: &Vec<String>, subsec_nanos: u32) -> (r: Result<Address, TipAccountError>)
    ensures
        tips@.len() == 0 ==> (r matches Err(e) && e is NoTipAccounts),
        tips@.len() > 0 ==> ({
            let t = tips@[(subsec_nanos as int) % (tips@.len() as int)]@;
            match spec_parse_pubkey(t) {
                Some(b) => r matches Ok(a) && a@ == b,
                None => r matches Err(TipAccountError::InvalidFromJito(x)) && x@ == t,
            }
        }),
{
    if tips.len() == 0 {
        return Err(TipAccountError::NoTipAccounts);
    }
    let idx = (subsec_nanos as usize) % tips.len();
    match parse_pubkey(tips[idx].as_str()) {
        Some(a) => Ok(a),
        None => Err(TipAccountError::InvalidFromJito(tips[idx].clone())),
    }
}

} // verus!
