//! Laws of numbers, times, texts and settings that the other modules rest on.

use crate::btc::{paid_to, projected, MempoolRawTx, MempoolRawVout};
use crate::config::{config_of, Environment};
use crate::percent::{is_unreserved, percent_encoded};
use crate::text::{
    decimal, digits_value, is_digit, is_white, parsed, trim, trim_end, trim_end_of, trim_start,
    NumberError,
};
use crate::tick::health_at;
use crate::time::{earlier, hours_later, seconds_between, Moment};
use vstd::prelude::*;

verus! {

// ── numbers ───────────────────────────────────────────────────────

proof fn lemma_digits_value(n: nat)
    ensures
        digits_value(decimal(n)) == n,
        forall|i: int| 0 <= i < decimal(n).len() ==> is_digit(#[trigger] decimal(n)[i]),
        decimal(n).len() > 0,
    decreases n,
{
    if n >= 10 {
        lemma_digits_value(n / 10);
        let front = decimal(n / 10);
        let last = crate::text::digit(n % 10, false);
        assert(decimal(n) == front.push(last));
        assert(decimal(n).drop_last() =~= front);
        lemma_digit(n % 10);
    } else {
        lemma_digit(n);
        assert(decimal(n).last() == crate::text::digit(n, false));
        assert(decimal(n).drop_last() =~= Seq::<char>::empty());
        assert(digits_value(Seq::<char>::empty()) == 0);
    }
}

proof fn lemma_digit(d: nat)
    requires
        d < 10,
    ensures
        crate::text::digit(d, false) as u32 == 0x30 + d,
{
}

proof fn lemma_all_digits(s: Seq<char>)
    requires
        forall|i: int| 0 <= i < s.len() ==> is_digit(#[trigger] s[i]),
    ensures
        crate::text::digits_in_front(s) == s.len(),
    decreases s.len(),
{
    if s.len() > 0 {
        let rest = s.subrange(1, s.len() as int);
        assert forall|i: int| 0 <= i < rest.len() implies is_digit(#[trigger] rest[i]) by {
            assert(rest[i] == s[i + 1]);
        }
        lemma_all_digits(rest);
    }
}

/// A number is read back from its decimal text, with or without a plus sign,
/// exactly where it is not too large.
pub proof fn law_numbers_are_read_back(n: nat, max: u64)
    ensures
        parsed(decimal(n), max) == (if n <= max {
            Ok::<u64, NumberError>(n as u64)
        } else {
            Err::<u64, NumberError>(NumberError::TooLarge)
        }),
        parsed(seq!['+'] + decimal(n), max) == parsed(decimal(n), max),
{
    let s = decimal(n);
    lemma_digits_value(n);
    lemma_all_digits(s);
    assert(s.take(s.len() as int) =~= s);
    assert(s[0] != '+');
    let t = seq!['+'] + s;
    assert(t.subrange(1, t.len() as int) =~= s);
}

// ── time ──────────────────────────────────────────────────────────

/// An hour is 3600 seconds, and times are compared and told apart as the
/// nanoseconds that they are.
pub proof fn law_time_is_counted(a: Moment, b: Moment, hours: int)
    requires
        0 <= a.nanos < 1_000_000_000,
        0 <= b.nanos < 1_000_000_000,
    ensures
        hours_later(a, hours) == (Moment { secs: a.secs + 3600 * hours, nanos: a.nanos }),
        earlier(a, b) <==> a.secs * 1_000_000_000 + a.nanos < b.secs * 1_000_000_000 + b.nanos,
        ({
            let d = (b.secs - a.secs) * 1_000_000_000 + (b.nanos - a.nanos);
            let n = seconds_between(b, a);
            &&& d >= 0 ==> n * 1_000_000_000 <= d < (n + 1) * 1_000_000_000
            &&& d <= 0 ==> (n - 1) * 1_000_000_000 < d <= n * 1_000_000_000
        }),
{
}

// ── texts ─────────────────────────────────────────────────────────

spec fn all_white(s: Seq<char>) -> bool {
    forall|i: int| 0 <= i < s.len() ==> is_white(#[trigger] s[i])
}

proof fn lemma_trim_start(s: Seq<char>) -> (front: Seq<char>)
    ensures
        s == front + trim_start(s),
        all_white(front),
        trim_start(s).len() > 0 ==> !is_white(trim_start(s)[0]),
    decreases s.len(),
{
    if s.len() > 0 && is_white(s[0]) {
        let rest = s.subrange(1, s.len() as int);
        let inner = lemma_trim_start(rest);
        let front = seq![s[0]] + inner;
        assert(rest == inner + trim_start(rest));
        assert(s =~= seq![s[0]] + rest);
        assert(seq![s[0]] + (inner + trim_start(rest)) =~= front + trim_start(rest));
        assert(all_white(front)) by {
            assert forall|i: int| 0 <= i < front.len() implies is_white(#[trigger] front[i]) by {
                if i > 0 {
                    assert(front[i] == inner[i - 1]);
                }
            }
        }
        front
    } else {
        assert(s =~= Seq::<char>::empty() + s);
        Seq::empty()
    }
}

proof fn lemma_trim_end(s: Seq<char>) -> (back: Seq<char>)
    ensures
        s == trim_end(s) + back,
        all_white(back),
        trim_end(s).len() > 0 ==> !is_white(trim_end(s).last()),
    decreases s.len(),
{
    if s.len() > 0 && is_white(s.last()) {
        let inner = lemma_trim_end(s.drop_last());
        let back = inner.push(s.last());
        let rest = s.drop_last();
        assert(rest == trim_end(rest) + inner);
        assert(s =~= rest.push(s.last()));
        assert((trim_end(rest) + inner).push(s.last()) =~= trim_end(rest) + back);
        back
    } else {
        assert(s =~= s + Seq::<char>::empty());
        Seq::empty()
    }
}

/// Trimming takes white space off both ends and nothing else, and leaves none
/// there.
pub proof fn law_trimming_takes_white_space_only(s: Seq<char>) -> (r: (Seq<char>, Seq<char>))
    ensures
        s == r.0 + trim(s) + r.1,
        forall|i: int| 0 <= i < r.0.len() ==> is_white(#[trigger] r.0[i]),
        forall|i: int| 0 <= i < r.1.len() ==> is_white(#[trigger] r.1[i]),
        trim(s).len() > 0 ==> !is_white(trim(s)[0]) && !is_white(trim(s).last()),
{
    let front = lemma_trim_start(s);
    let mid = trim_start(s);
    let back = lemma_trim_end(mid);
    assert(s =~= front + trim(s) + back);
    if trim(s).len() > 0 {
        assert(trim(s)[0] == mid[0]);
    }
    (front, back)
}

/// A character is trimmed off the end as often as it stands there, and nothing
/// else is.
pub proof fn law_trailing_characters_come_off(s: Seq<char>, c: char) -> (n: nat)
    ensures
        s == trim_end_of(s, c) + Seq::new(n, |i: int| c),
        trim_end_of(s, c).len() > 0 ==> trim_end_of(s, c).last() != c,
    decreases s.len(),
{
    if s.len() > 0 && s.last() == c {
        let m = law_trailing_characters_come_off(s.drop_last(), c);
        let rest = s.drop_last();
        let cut = trim_end_of(rest, c);
        assert(rest == cut + Seq::new(m, |i: int| c));
        assert(s =~= rest.push(c));
        assert((cut + Seq::new(m, |i: int| c)).push(c) =~= cut + Seq::new(m + 1, |i: int| c));
        m + 1
    } else {
        assert(s =~= s + Seq::new(0, |i: int| c));
        0
    }
}

/// The health of an agent is asked over https where its host names no scheme,
/// and as it is named where it does.
pub proof fn law_agents_are_asked_at_their_host(host: Seq<char>)
    requires
        host.len() > 0,
        host.last() != '/',
    ensures
        crate::text::starts_with(host, "https://"@) || crate::text::starts_with(host, "http://"@)
            ==> health_at(host) == host + "/health"@,
        !crate::text::starts_with(host, "https://"@) && !crate::text::starts_with(
            host,
            "http://"@,
        ) ==> health_at(host) == "https://"@ + host + "/health"@,
        health_at(host.push('/')) == health_at(host),
{
    assert(host.push('/').drop_last() =~= host);
}

/// Letters, digits and `-_.~` stand for themselves in a URI; nothing else does.
pub proof fn law_plain_texts_are_not_escaped(s: Seq<char>)
    requires
        forall|i: int|
            0 <= i < s.len() ==> ('a' <= #[trigger] s[i] <= 'z' || 'A' <= s[i] <= 'Z' || '0' <= s[i]
                <= '9' || s[i] == '-' || s[i] == '_' || s[i] == '.' || s[i] == '~'),
    ensures
        percent_encoded(s) == s,
    decreases s.len(),
{
    if s.len() > 0 {
        let rest = s.subrange(1, s.len() as int);
        assert forall|i: int| 0 <= i < rest.len() implies ('a' <= #[trigger] rest[i] <= 'z' || 'A'
            <= rest[i] <= 'Z' || '0' <= rest[i] <= '9' || rest[i] == '-' || rest[i] == '_'
            || rest[i] == '.' || rest[i] == '~') by {
            assert(rest[i] == s[i + 1]);
        }
        law_plain_texts_are_not_escaped(rest);
        lemma_unreserved(s[0]);
        assert(seq![s[0]] + rest =~= s);
    }
}

proof fn lemma_unreserved(c: char)
    ensures
        is_unreserved(c) == ('a' <= c <= 'z' || 'A' <= c <= 'Z' || '0' <= c <= '9' || c == '-' || c
            == '_' || c == '.' || c == '~'),
{
}

// ── the chain ─────────────────────────────────────────────────────

/// A transaction counts for an address what its outputs pay to that address,
/// and is in a block only where it is confirmed.
pub proof fn law_transactions_count_for_their_address(
    raw: MempoolRawTx,
    vout: Seq<MempoolRawVout>,
    out: MempoolRawVout,
    address: Seq<char>,
)
    requires
        paid_to(raw.vout@, address) <= u64::MAX,
    ensures
        ({
            let tx = projected(raw, address);
            &&& tx.txid == raw.txid@
            &&& tx.received_sats == paid_to(raw.vout@, address)
            &&& raw.status.confirmed ==> tx.block_height == raw.status.block_height
                && tx.block_time == raw.status.block_time
            &&& !raw.status.confirmed ==> tx.block_height is None && tx.block_time is None
        }),
        paid_to(Seq::empty(), address) == 0,
        (out.scriptpubkey_address matches Some(a) && a@ == address) ==> paid_to(
            vout.push(out),
            address,
        ) == paid_to(vout, address) + out.value,
        !(out.scriptpubkey_address matches Some(a) && a@ == address) ==> paid_to(
            vout.push(out),
            address,
        ) == paid_to(vout, address),
{
    assert(vout.push(out).drop_last() =~= vout);
}

// ── settings ──────────────────────────────────────────────────────

/// A variable, or a default where it is not set.
pub open spec fn set_or(env: Environment, key: Seq<char>, default: Seq<char>) -> Seq<char> {
    match env.value(key) {
        Some(v) => v,
        None => default,
    }
}

/// Settings are what the environment says: each text is the value of its own
/// variable, each number the one that its variable writes, and a default stands
/// only for a variable that is not set.
pub proof fn law_settings_are_what_was_set(env: Environment)
    ensures
        config_of(env) matches Ok(c) ==> {
            &&& env.value("SATS_STATE_REPO"@) == Some(c.state_repo)
            &&& env.value("SATS_OPS_REPO"@) == Some(c.ops_repo)
            &&& env.value("SATS_SWEEP_ADDRESS"@) == Some(c.sweep_address)
            &&& env.value("SATS_GITHUB_TOKEN"@) == Some(c.github_token)
            &&& env.value("SATS_TOOL_API_TOKEN"@) == Some(c.tool_api_token)
            &&& c.ops_boot_workflow == set_or(env, "SATS_OPS_BOOT_WORKFLOW"@, "boot-agent.yml"@)
            &&& c.ops_owner_workflow == set_or(
                env,
                "SATS_OPS_OWNER_WORKFLOW"@,
                "owner-update.yml"@,
            )
            &&& c.ops_ref == set_or(env, "SATS_OPS_REF"@, "main"@)
            &&& c.dd_cp_url == set_or(env, "SATS_DD_CP_URL"@, "https://app.devopsdefender.com"@)
            &&& c.mempool_base_url == set_or(
                env,
                "SATS_MEMPOOL_BASE_URL"@,
                "https://mempool.space/api"@,
            )
            &&& parsed(set_or(env, "SATS_PORT"@, "8090"@), u16::MAX as u64) == Ok::<
                u64,
                NumberError,
            >(c.port as u64)
            &&& parsed(set_or(env, "SATS_PRICE_PER_24H_SATS"@, "50000"@), u64::MAX) == Ok::<
                u64,
                NumberError,
            >(c.price_per_24h_sats)
            &&& parsed(set_or(env, "SATS_PENDING_TIMEOUT_SECS"@, "10800"@), u64::MAX) == Ok::<
                u64,
                NumberError,
            >(c.pending_timeout_secs)
            &&& parsed(set_or(env, "SATS_OPTIMISTIC_BIND_GRACE_SECS"@, "3600"@), u64::MAX) == Ok::<
                u64,
                NumberError,
            >(c.optimistic_bind_grace_secs)
            &&& (env.value("SATS_DD_AUTH_TOKEN"@) matches Some(t) && t.len() > 0)
                ==> c.dd_auth_token == env.value("SATS_DD_AUTH_TOKEN"@)
            &&& (env.value("SATS_DD_AUTH_TOKEN"@) matches Some(t) ==> t.len() == 0)
                ==> c.dd_auth_token is None
        },
{
    if config_of(env) is Ok {
        lemma_parsed_bound(set_or(env, "SATS_PORT"@, "8090"@), u16::MAX as u64);
    }
}

proof fn lemma_parsed_bound(s: Seq<char>, max: u64)
    ensures
        parsed(s, max) matches Ok(n) ==> n <= max,
{
    let t = crate::text::behind_plus(s);
    let n = crate::text::digits_in_front(t);
    if parsed(s, max) is Ok {
        lemma_front_bound(t);
        assert(t.take(n as int) =~= t);
    }
}

proof fn lemma_front_bound(s: Seq<char>)
    ensures
        crate::text::digits_in_front(s) <= s.len(),
    decreases s.len(),
{
    if s.len() > 0 && is_digit(s[0]) {
        lemma_front_bound(s.subrange(1, s.len() as int));
    }
}

/// Settings are accepted wherever what is required is set and the numbers can
/// be read.
pub proof fn law_complete_settings_are_accepted(env: Environment)
    requires
        env.value("SATS_STATE_REPO"@) matches Some(v) && v.contains('/'),
        env.value("SATS_OPS_REPO"@) matches Some(v) && v.contains('/'),
        env.value("SATS_SWEEP_ADDRESS"@) matches Some(v) && v.len() > 0,
        env.value("SATS_GITHUB_TOKEN"@) matches Some(v) && v.len() > 0,
        env.value("SATS_TOOL_API_TOKEN"@) matches Some(v) && v.len() > 0,
        parsed(set_or(env, "SATS_PORT"@, "8090"@), u16::MAX as u64) is Ok,
        parsed(set_or(env, "SATS_PRICE_PER_24H_SATS"@, "50000"@), u64::MAX) is Ok,
        parsed(set_or(env, "SATS_PENDING_TIMEOUT_SECS"@, "10800"@), u64::MAX) is Ok,
        parsed(set_or(env, "SATS_OPTIMISTIC_BIND_GRACE_SECS"@, "3600"@), u64::MAX) is Ok,
    ensures
        config_of(env) is Ok,
{
}

/// A numeral has at least one digit and no zero in front, but for zero itself.
pub proof fn law_numerals_have_no_leading_zero(n: nat)
    ensures
        decimal(n).len() > 0,
        n > 0 ==> decimal(n)[0] != '0',
        n == 0 ==> decimal(n) == seq!['0'],
    decreases n,
{
    if n >= 10 {
        law_numerals_have_no_leading_zero(n / 10);
        assert(decimal(n)[0] == decimal(n / 10)[0]);
    } else {
        lemma_digit(n);
        assert(decimal(n)[0] == crate::text::digit(n, false));
    }
}

/// Only digits, after a plus sign at most, are a number; and a number is what
/// its digits write, place by place.
pub proof fn law_only_digits_are_numbers(s: Seq<char>, c: char, max: u64)
    ensures
        parsed(s, max) is Ok ==> {
            let t = if s.len() > 1 && s[0] == '+' {
                s.subrange(1, s.len() as int)
            } else {
                s
            };
            t.len() > 0 && forall|i: int| 0 <= i < t.len() ==> '0' <= #[trigger] t[i] <= '9'
        },
        digits_value(Seq::empty()) == 0,
        '0' <= c <= '9' ==> digits_value(s.push(c)) == 10 * digits_value(s) + (c as u32
            - '0' as u32),
{
    let t = crate::text::behind_plus(s);
    if parsed(s, max) is Ok {
        lemma_front_bound(t);
        lemma_front_digits(t);
        assert forall|i: int| 0 <= i < t.len() implies '0' <= #[trigger] t[i] <= '9' by {
            assert(is_digit(t[i]));
            lemma_digit_char(t[i]);
        }
    }
    assert(s.push(c).drop_last() =~= s);
}

proof fn lemma_digit_char(c: char)
    requires
        is_digit(c),
    ensures
        '0' <= c <= '9',
{
}

proof fn lemma_front_digits(s: Seq<char>)
    ensures
        forall|i: int|
            0 <= i < crate::text::digits_in_front(s) && i < s.len() ==> is_digit(#[trigger] s[i]),
    decreases s.len(),
{
    if s.len() > 0 && is_digit(s[0]) {
        let rest = s.subrange(1, s.len() as int);
        lemma_front_digits(rest);
        assert forall|i: int|
            0 <= i < crate::text::digits_in_front(s) && i < s.len() implies is_digit(
            #[trigger] s[i],
        ) by {
            if i > 0 {
                assert(s[i] == rest[i - 1]);
            }
        }
    }
}

/// A variable is the first of its name.
pub proof fn law_the_first_variable_counts(env: Environment, key: Seq<char>)
    ensures
        match env.value(key) {
            Some(v) => exists|i: int|
                0 <= i < env.vars@.len() && (#[trigger] env.vars@[i]).0@ == key && env.vars@[i].1@
                    == v && forall|j: int| 0 <= j < i ==> (#[trigger] env.vars@[j]).0@ != key,
            None => forall|j: int| 0 <= j < env.vars@.len() ==> (#[trigger] env.vars@[j]).0@ != key,
        },
{
    lemma_first_variable(env.vars@, key);
}

proof fn lemma_first_variable(vars: Seq<(String, String)>, key: Seq<char>)
    ensures
        match crate::config::env_value(vars, key) {
            Some(v) => exists|i: int|
                0 <= i < vars.len() && (#[trigger] vars[i]).0@ == key && vars[i].1@ == v && forall|
                    j: int,
                |
                    0 <= j < i ==> (#[trigger] vars[j]).0@ != key,
            None => forall|j: int| 0 <= j < vars.len() ==> (#[trigger] vars[j]).0@ != key,
        },
    decreases vars.len(),
{
    if vars.len() > 0 && vars[0].0@ != key {
        let rest = vars.subrange(1, vars.len() as int);
        lemma_first_variable(rest, key);
        match crate::config::env_value(rest, key) {
            Some(v) => {
                let i = choose|i: int|
                    0 <= i < rest.len() && (#[trigger] rest[i]).0@ == key && rest[i].1@ == v
                        && forall|j: int| 0 <= j < i ==> (#[trigger] rest[j]).0@ != key;
                assert(vars[i + 1] == rest[i]);
                assert forall|j: int| 0 <= j < i + 1 implies (#[trigger] vars[j]).0@ != key by {
                    if j > 0 {
                        assert(vars[j] == rest[j - 1]);
                    }
                }
            },
            None => {
                assert forall|j: int| 0 <= j < vars.len() implies (#[trigger] vars[j]).0@
                    != key by {
                    if j > 0 {
                        assert(vars[j] == rest[j - 1]);
                    }
                }
            },
        }
    }
}

/// A prefix or suffix that was put on comes off, and only that.
pub proof fn law_what_was_put_on_comes_off(s: Seq<char>, p: Seq<char>)
    ensures
        crate::text::without_prefix(p + s, p) == Some(s),
        crate::text::without_suffix(s + p, p) == Some(s),
        crate::text::without_prefix(s, p) matches Some(r) ==> s == p + r,
        crate::text::without_suffix(s, p) matches Some(r) ==> s == r + p,
{
    assert((p + s).subrange(0, p.len() as int) =~= p);
    assert((p + s).subrange(p.len() as int, (p + s).len() as int) =~= s);
    assert((s + p).subrange((s + p).len() - p.len(), (s + p).len() as int) =~= p);
    assert((s + p).subrange(0, (s + p).len() - p.len()) =~= s);
    if crate::text::starts_with(s, p) {
        assert(s =~= p + s.subrange(p.len() as int, s.len() as int));
    }
    if crate::text::ends_with(s, p) {
        assert(s =~= s.subrange(0, s.len() - p.len()) + p);
    }
}

} // verus!
