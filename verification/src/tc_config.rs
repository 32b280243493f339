//! Structured netem configuration and what it turns into: the list of netem
//! settings handed to the kernel, and the `tc` command line shown to users.
use vstd::prelude::*;
use crate::decimal::Decimal;
use crate::text::{contains_seq, nat_digits, occurs_at, owned, push_char, push_str, push_u64};

verus! {

/// Packet loss settings.
#[derive(Clone, Copy, Debug)]
pub struct TcLossConfig {
    pub enabled: bool,
    pub percentage: Decimal,
    pub correlation: Decimal,
}

/// Delay settings.
#[derive(Clone, Copy, Debug)]
pub struct TcDelayConfig {
    pub enabled: bool,
    pub base_ms: Decimal,
    pub jitter_ms: Decimal,
    pub correlation: Decimal,
}

/// Duplication settings.
#[derive(Clone, Copy, Debug)]
pub struct TcDuplicateConfig {
    pub enabled: bool,
    pub percentage: Decimal,
    pub correlation: Decimal,
}

/// Reordering settings.
#[derive(Clone, Copy, Debug)]
pub struct TcReorderConfig {
    pub enabled: bool,
    pub percentage: Decimal,
    pub correlation: Decimal,
    pub gap: u32,
}

/// Corruption settings.
#[derive(Clone, Copy, Debug)]
pub struct TcCorruptConfig {
    pub enabled: bool,
    pub percentage: Decimal,
    pub correlation: Decimal,
}

/// Rate limit settings.
#[derive(Clone, Copy, Debug)]
pub struct TcRateLimitConfig {
    pub enabled: bool,
    pub rate_kbps: u32,
}

/// A complete netem configuration for one interface.
#[derive(Clone, Copy, Debug)]
pub struct TcNetemConfig {
    pub loss: TcLossConfig,
    pub delay: TcDelayConfig,
    pub duplicate: TcDuplicateConfig,
    pub reorder: TcReorderConfig,
    pub corrupt: TcCorruptConfig,
    pub rate_limit: TcRateLimitConfig,
}

/// The netem settings to install, each present only when it takes effect.
#[derive(Clone, Copy, Debug)]
pub struct NetemPlan {
    pub loss: Option<Decimal>,
    pub loss_correlation: Option<Decimal>,
    pub delay_ms: Option<u64>,
    pub jitter_ms: Option<u64>,
    pub delay_correlation: Option<Decimal>,
    pub duplicate: Option<Decimal>,
    pub duplicate_correlation: Option<Decimal>,
    pub reorder: Option<Decimal>,
    pub reorder_correlation: Option<Decimal>,
    pub gap: Option<u32>,
    pub corrupt: Option<Decimal>,
    pub corrupt_correlation: Option<Decimal>,
    pub rate_kbit: Option<u64>,
}

/// `Some(v)` when `cond`, else `None`.
pub open spec fn when<T>(cond: bool, v: T) -> Option<T> {
    if cond {
        Some(v)
    } else {
        None
    }
}

/// The settings a structured configuration installs: a section counts only
/// when it is enabled and its main value is positive; a correlation only
/// when it is positive; jitter only with a delay, and the delay correlation
/// only with a jitter; the gap only when it is positive; delays are whole
/// milliseconds, truncated.
pub open spec fn plan_spec(c: TcNetemConfig) -> NetemPlan {
    let loss_on = c.loss.enabled && c.loss.percentage.is_pos();
    let delay_on = c.delay.enabled && c.delay.base_ms.is_pos();
    let jitter_on = delay_on && c.delay.jitter_ms.is_pos();
    let dup_on = c.duplicate.enabled && c.duplicate.percentage.is_pos();
    let reorder_on = c.reorder.enabled && c.reorder.percentage.is_pos();
    let corrupt_on = c.corrupt.enabled && c.corrupt.percentage.is_pos();
    NetemPlan {
        loss: when(loss_on, c.loss.percentage),
        loss_correlation: when(loss_on && c.loss.correlation.is_pos(), c.loss.correlation),
        delay_ms: when(delay_on, c.delay.base_ms.trunc_nat() as u64),
        jitter_ms: when(jitter_on, c.delay.jitter_ms.trunc_nat() as u64),
        delay_correlation: when(
            jitter_on && c.delay.correlation.is_pos(),
            c.delay.correlation,
        ),
        duplicate: when(dup_on, c.duplicate.percentage),
        duplicate_correlation: when(
            dup_on && c.duplicate.correlation.is_pos(),
            c.duplicate.correlation,
        ),
        reorder: when(reorder_on, c.reorder.percentage),
        reorder_correlation: when(
            reorder_on && c.reorder.correlation.is_pos(),
            c.reorder.correlation,
        ),
        gap: when(reorder_on && c.reorder.gap > 0, c.reorder.gap),
        corrupt: when(corrupt_on, c.corrupt.percentage),
        corrupt_correlation: when(
            corrupt_on && c.corrupt.correlation.is_pos(),
            c.corrupt.correlation,
        ),
        rate_kbit: when(
            c.rate_limit.enabled && c.rate_limit.rate_kbps > 0,
            c.rate_limit.rate_kbps as u64,
        ),
    }
}

fn opt_if(cond: bool, v: Decimal) -> (r: Option<Decimal>)
    ensures
        r == when(cond, v),
{
    if cond {
        Some(v)
    } else {
        None
    }
}

/// The netem settings that a structured configuration installs.
pub fn netem_plan(c: &TcNetemConfig) -> (p: NetemPlan)
    ensures
        p == plan_spec(*c),
{
    let loss_on = c.loss.enabled && c.loss.percentage.is_positive();
    let delay_on = c.delay.enabled && c.delay.base_ms.is_positive();
    let jitter_on = delay_on && c.delay.jitter_ms.is_positive();
    let dup_on = c.duplicate.enabled && c.duplicate.percentage.is_positive();
    let reorder_on = c.reorder.enabled && c.reorder.percentage.is_positive();
    let corrupt_on = c.corrupt.enabled && c.corrupt.percentage.is_positive();
    NetemPlan {
        loss: opt_if(loss_on, c.loss.percentage),
        loss_correlation: opt_if(loss_on && c.loss.correlation.is_positive(), c.loss.correlation),
        delay_ms: if delay_on {
            Some(c.delay.base_ms.trunc_u64())
        } else {
            None
        },
        jitter_ms: if jitter_on {
            Some(c.delay.jitter_ms.trunc_u64())
        } else {
            None
        },
        delay_correlation: opt_if(
            jitter_on && c.delay.correlation.is_positive(),
            c.delay.correlation,
        ),
        duplicate: opt_if(dup_on, c.duplicate.percentage),
        duplicate_correlation: opt_if(
            dup_on && c.duplicate.correlation.is_positive(),
            c.duplicate.correlation,
        ),
        reorder: opt_if(reorder_on, c.reorder.percentage),
        reorder_correlation: opt_if(
            reorder_on && c.reorder.correlation.is_positive(),
            c.reorder.correlation,
        ),
        gap: if reorder_on && c.reorder.gap > 0 {
            Some(c.reorder.gap)
        } else {
            None
        },
        corrupt: opt_if(corrupt_on, c.corrupt.percentage),
        corrupt_correlation: opt_if(
            corrupt_on && c.corrupt.correlation.is_positive(),
            c.corrupt.correlation,
        ),
        rate_kbit: if c.rate_limit.enabled && c.rate_limit.rate_kbps > 0 {
            Some(c.rate_limit.rate_kbps as u64)
        } else {
            None
        },
    }
}

/// A planned netem setting holds the configured value of its own section:
/// each section that is enabled with a positive amount installs that
/// amount, its positive correlation installs that correlation, and a
/// disabled section installs nothing.
pub proof fn law_plan_installs_configured_values(c: TcNetemConfig)
    ensures
        c.loss.enabled && c.loss.percentage.is_pos() ==> plan_spec(c).loss == Some(c.loss.percentage),
        c.loss.enabled && c.loss.percentage.is_pos() && c.loss.correlation.is_pos() ==> plan_spec(
            c,
        ).loss_correlation == Some(c.loss.correlation),
        !c.loss.enabled ==> plan_spec(c).loss is None && plan_spec(c).loss_correlation is None,
        c.delay.enabled && c.delay.base_ms.is_pos() ==> plan_spec(c).delay_ms == Some(
            c.delay.base_ms.trunc_nat() as u64,
        ),
        c.delay.enabled && c.delay.base_ms.is_pos() && c.delay.jitter_ms.is_pos() ==> plan_spec(
            c,
        ).jitter_ms == Some(c.delay.jitter_ms.trunc_nat() as u64),
        c.delay.enabled && c.delay.base_ms.is_pos() && c.delay.jitter_ms.is_pos()
            && c.delay.correlation.is_pos() ==> plan_spec(c).delay_correlation == Some(
            c.delay.correlation,
        ),
        !c.delay.enabled ==> plan_spec(c).delay_ms is None && plan_spec(c).jitter_ms is None
            && plan_spec(c).delay_correlation is None,
        c.duplicate.enabled && c.duplicate.percentage.is_pos() ==> plan_spec(c).duplicate == Some(
            c.duplicate.percentage,
        ),
        c.duplicate.enabled && c.duplicate.percentage.is_pos() && c.duplicate.correlation.is_pos()
            ==> plan_spec(c).duplicate_correlation == Some(c.duplicate.correlation),
        !c.duplicate.enabled ==> plan_spec(c).duplicate is None && plan_spec(
            c,
        ).duplicate_correlation is None,
        c.reorder.enabled && c.reorder.percentage.is_pos() ==> plan_spec(c).reorder == Some(
            c.reorder.percentage,
        ),
        c.reorder.enabled && c.reorder.percentage.is_pos() && c.reorder.correlation.is_pos()
            ==> plan_spec(c).reorder_correlation == Some(c.reorder.correlation),
        c.reorder.enabled && c.reorder.percentage.is_pos() && c.reorder.gap > 0 ==> plan_spec(
            c,
        ).gap == Some(c.reorder.gap),
        !c.reorder.enabled ==> plan_spec(c).reorder is None && plan_spec(c).reorder_correlation is None
            && plan_spec(c).gap is None,
        c.corrupt.enabled && c.corrupt.percentage.is_pos() ==> plan_spec(c).corrupt == Some(
            c.corrupt.percentage,
        ),
        c.corrupt.enabled && c.corrupt.percentage.is_pos() && c.corrupt.correlation.is_pos()
            ==> plan_spec(c).corrupt_correlation == Some(c.corrupt.correlation),
        !c.corrupt.enabled ==> plan_spec(c).corrupt is None && plan_spec(c).corrupt_correlation is None,
        c.rate_limit.enabled && c.rate_limit.rate_kbps > 0 ==> plan_spec(c).rate_kbit == Some(
            c.rate_limit.rate_kbps as u64,
        ),
        !c.rate_limit.enabled ==> plan_spec(c).rate_kbit is None,
{
}

/// A text occurs in any text that has it between a prefix and a suffix.
proof fn lemma_contains_middle(p: Seq<char>, m: Seq<char>, s: Seq<char>, t: Seq<char>)
    requires
        t =~= p + m + s,
    ensures
        contains_seq(t, m),
{
    assert(t.subrange(p.len() as int, (p.len() + m.len()) as int) =~= m);
    assert(occurs_at(t, m, p.len() as int));
}

/// A text occurring in a text that occurs in `t` occurs in `t`.
proof fn lemma_contains_trans(t: Seq<char>, piece: Seq<char>, m: Seq<char>)
    requires
        contains_seq(t, piece),
        contains_seq(piece, m),
    ensures
        contains_seq(t, m),
{
    let i = choose|i: int| occurs_at(t, piece, i);
    let j = choose|j: int| occurs_at(piece, m, j);
    assert(t.subrange(i + j, i + j + m.len()) =~= piece.subrange(j, j + m.len())) by {
        assert forall|k: int| 0 <= k < m.len() implies #[trigger] t.subrange(i + j, i + j + m.len())[k]
            == piece.subrange(j, j + m.len())[k] by {
            assert(t.subrange(i, i + piece.len())[j + k] == piece[j + k]);
        }
    }
    assert(occurs_at(t, m, i + j));
}

/// Each of seven consecutive parts occurs in the whole.
proof fn lemma_parts_occur(
    a: Seq<char>,
    b: Seq<char>,
    c: Seq<char>,
    d: Seq<char>,
    e: Seq<char>,
    f: Seq<char>,
    g: Seq<char>,
)
    ensures
        contains_seq(a + b + c + d + e + f + g, b),
        contains_seq(a + b + c + d + e + f + g, c),
        contains_seq(a + b + c + d + e + f + g, d),
        contains_seq(a + b + c + d + e + f + g, e),
        contains_seq(a + b + c + d + e + f + g, f),
        contains_seq(a + b + c + d + e + f + g, g),
{
    let t = a + b + c + d + e + f + g;
    lemma_contains_middle(a, b, c + d + e + f + g, t);
    lemma_contains_middle(a + b, c, d + e + f + g, t);
    lemma_contains_middle(a + b + c, d, e + f + g, t);
    lemma_contains_middle(a + b + c + d, e, f + g, t);
    lemma_contains_middle(a + b + c + d + e, f, g, t);
    lemma_contains_middle(a + b + c + d + e + f, g, Seq::empty(), t);
}

/// A text occurs in itself followed by anything.
proof fn lemma_contains_prefix(m: Seq<char>, rest: Seq<char>)
    ensures
        contains_seq(m + rest, m),
{
    lemma_contains_middle(Seq::empty(), m, rest, m + rest);
}

/// Each part of the command line occurs in it.
proof fn lemma_command_parts(
    iface: Seq<char>,
    loss: Decimal,
    correlation: Option<Decimal>,
    delay_ms: Option<Decimal>,
    delay_jitter_ms: Option<Decimal>,
    delay_correlation: Option<Decimal>,
    duplicate_percent: Option<Decimal>,
    duplicate_correlation: Option<Decimal>,
    reorder_percent: Option<Decimal>,
    reorder_correlation: Option<Decimal>,
    reorder_gap: Option<u32>,
    corrupt_percent: Option<Decimal>,
    corrupt_correlation: Option<Decimal>,
    rate_limit_kbps: Option<u32>,
)
    ensures
        ({
            let cmd = config_command_spec(
            iface,
            loss,
            correlation,
            delay_ms,
            delay_jitter_ms,
            delay_correlation,
            duplicate_percent,
            duplicate_correlation,
            reorder_percent,
            reorder_correlation,
            reorder_gap,
            corrupt_percent,
            corrupt_correlation,
            rate_limit_kbps,
        );
            &&& cmd == "tc qdisc replace dev "@ + iface + " root netem"@ + (loss_part(loss, correlation)
                + delay_part(delay_ms, delay_jitter_ms, delay_correlation) + pct_part(
                " duplicate "@,
                duplicate_percent,
                duplicate_correlation,
            ) + reorder_part(reorder_percent, reorder_correlation, reorder_gap) + pct_part(
                " corrupt "@,
                corrupt_percent,
                corrupt_correlation,
            ) + rate_part(rate_limit_kbps))
            &&& contains_seq(cmd, loss_part(loss, correlation))
            &&& contains_seq(cmd, delay_part(delay_ms, delay_jitter_ms, delay_correlation))
            &&& contains_seq(cmd, pct_part(" duplicate "@, duplicate_percent, duplicate_correlation))
            &&& contains_seq(cmd, reorder_part(reorder_percent, reorder_correlation, reorder_gap))
            &&& contains_seq(cmd, pct_part(" corrupt "@, corrupt_percent, corrupt_correlation))
            &&& contains_seq(cmd, rate_part(rate_limit_kbps))
        }),
{
    let h = "tc qdisc replace dev "@ + iface + " root netem"@;
    let l = loss_part(loss, correlation);
    let d = delay_part(delay_ms, delay_jitter_ms, delay_correlation);
    let du = pct_part(" duplicate "@, duplicate_percent, duplicate_correlation);
    let re = reorder_part(reorder_percent, reorder_correlation, reorder_gap);
    let co = pct_part(" corrupt "@, corrupt_percent, corrupt_correlation);
    let ra = rate_part(rate_limit_kbps);
    lemma_parts_occur(h, l, d, du, re, co, ra);
    assert(h + l + d + du + re + co + ra =~= h + (l + d + du + re + co + ra));
}

/// The command line starts by replacing the interface's root qdisc with
/// netem.
pub proof fn law_command_starts_with_netem_replace(
    iface: Seq<char>,
    loss: Decimal,
    correlation: Option<Decimal>,
    delay_ms: Option<Decimal>,
    delay_jitter_ms: Option<Decimal>,
    delay_correlation: Option<Decimal>,
    duplicate_percent: Option<Decimal>,
    duplicate_correlation: Option<Decimal>,
    reorder_percent: Option<Decimal>,
    reorder_correlation: Option<Decimal>,
    reorder_gap: Option<u32>,
    corrupt_percent: Option<Decimal>,
    corrupt_correlation: Option<Decimal>,
    rate_limit_kbps: Option<u32>,
)
    requires
        true,
    ensures
        ({
            let cmd = config_command_spec(
            iface,
            loss,
            correlation,
            delay_ms,
            delay_jitter_ms,
            delay_correlation,
            duplicate_percent,
            duplicate_correlation,
            reorder_percent,
            reorder_correlation,
            reorder_gap,
            corrupt_percent,
            corrupt_correlation,
            rate_limit_kbps,
        );
            cmd.subrange(0, (21 + iface.len() + 11) as int) == "tc qdisc replace dev "@ + iface + " root netem"@
        }),
{
    lemma_command_parts(iface, loss, correlation, delay_ms, delay_jitter_ms, delay_correlation, duplicate_percent, duplicate_correlation, reorder_percent, reorder_correlation, reorder_gap, corrupt_percent, corrupt_correlation, rate_limit_kbps,);
    lemma_command_head(
        iface,
        config_command_spec(
            iface,
            loss,
            correlation,
            delay_ms,
            delay_jitter_ms,
            delay_correlation,
            duplicate_percent,
            duplicate_correlation,
            reorder_percent,
            reorder_correlation,
            reorder_gap,
            corrupt_percent,
            corrupt_correlation,
            rate_limit_kbps,
        ),
        loss_part(loss, correlation) + delay_part(delay_ms, delay_jitter_ms, delay_correlation)
            + pct_part(" duplicate "@, duplicate_percent, duplicate_correlation) + reorder_part(
            reorder_percent,
            reorder_correlation,
            reorder_gap,
        ) + pct_part(" corrupt "@, corrupt_percent, corrupt_correlation) + rate_part(rate_limit_kbps),
    );
}

/// A positive loss appears as ` loss X%`, followed by ` correlation C%`
/// when its correlation is positive.
pub proof fn law_command_states_loss(
    iface: Seq<char>,
    loss: Decimal,
    correlation: Option<Decimal>,
    delay_ms: Option<Decimal>,
    delay_jitter_ms: Option<Decimal>,
    delay_correlation: Option<Decimal>,
    duplicate_percent: Option<Decimal>,
    duplicate_correlation: Option<Decimal>,
    reorder_percent: Option<Decimal>,
    reorder_correlation: Option<Decimal>,
    reorder_gap: Option<u32>,
    corrupt_percent: Option<Decimal>,
    corrupt_correlation: Option<Decimal>,
    rate_limit_kbps: Option<u32>,
)
    requires
        loss.is_pos(),
    ensures
        ({
            let cmd = config_command_spec(
            iface,
            loss,
            correlation,
            delay_ms,
            delay_jitter_ms,
            delay_correlation,
            duplicate_percent,
            duplicate_correlation,
            reorder_percent,
            reorder_correlation,
            reorder_gap,
            corrupt_percent,
            corrupt_correlation,
            rate_limit_kbps,
        );
            &&& contains_seq(cmd, " loss "@ + loss.text() + "%"@)
            &&& is_pos_opt(correlation) ==> contains_seq(
                cmd,
                " loss "@ + loss.text() + "% correlation "@ + correlation->0.text() + "%"@,
            )
        }),
{
    lemma_command_parts(iface, loss, correlation, delay_ms, delay_jitter_ms, delay_correlation, duplicate_percent, duplicate_correlation, reorder_percent, reorder_correlation, reorder_gap, corrupt_percent, corrupt_correlation, rate_limit_kbps,);
    lemma_loss_text(loss, correlation);
    lemma_contains_trans(
        config_command_spec(
            iface,
            loss,
            correlation,
            delay_ms,
            delay_jitter_ms,
            delay_correlation,
            duplicate_percent,
            duplicate_correlation,
            reorder_percent,
            reorder_correlation,
            reorder_gap,
            corrupt_percent,
            corrupt_correlation,
            rate_limit_kbps,
        ),
        loss_part(loss, correlation),
        " loss "@ + loss.text() + "%"@,
    );
}

/// A positive delay appears as ` delay Dms`, and as ` delay Dms Jms C%`
/// with a positive jitter and correlation.
pub proof fn law_command_states_delay(
    iface: Seq<char>,
    loss: Decimal,
    correlation: Option<Decimal>,
    delay_ms: Option<Decimal>,
    delay_jitter_ms: Option<Decimal>,
    delay_correlation: Option<Decimal>,
    duplicate_percent: Option<Decimal>,
    duplicate_correlation: Option<Decimal>,
    reorder_percent: Option<Decimal>,
    reorder_correlation: Option<Decimal>,
    reorder_gap: Option<u32>,
    corrupt_percent: Option<Decimal>,
    corrupt_correlation: Option<Decimal>,
    rate_limit_kbps: Option<u32>,
)
    requires
        is_pos_opt(delay_ms),
    ensures
        ({
            let cmd = config_command_spec(
            iface,
            loss,
            correlation,
            delay_ms,
            delay_jitter_ms,
            delay_correlation,
            duplicate_percent,
            duplicate_correlation,
            reorder_percent,
            reorder_correlation,
            reorder_gap,
            corrupt_percent,
            corrupt_correlation,
            rate_limit_kbps,
        );
            &&& contains_seq(cmd, " delay "@ + delay_ms->0.text() + "ms"@)
            &&& is_pos_opt(delay_jitter_ms) && is_pos_opt(delay_correlation) ==> contains_seq(
                cmd,
                " delay "@ + delay_ms->0.text() + "ms "@ + delay_jitter_ms->0.text() + "ms "@
                    + delay_correlation->0.text() + "%"@,
            )
        }),
{
    lemma_command_parts(iface, loss, correlation, delay_ms, delay_jitter_ms, delay_correlation, duplicate_percent, duplicate_correlation, reorder_percent, reorder_correlation, reorder_gap, corrupt_percent, corrupt_correlation, rate_limit_kbps,);
    lemma_delay_text(delay_ms, delay_jitter_ms, delay_correlation);
    lemma_contains_trans(
        config_command_spec(
            iface,
            loss,
            correlation,
            delay_ms,
            delay_jitter_ms,
            delay_correlation,
            duplicate_percent,
            duplicate_correlation,
            reorder_percent,
            reorder_correlation,
            reorder_gap,
            corrupt_percent,
            corrupt_correlation,
            rate_limit_kbps,
        ),
        delay_part(delay_ms, delay_jitter_ms, delay_correlation),
        " delay "@ + delay_ms->0.text() + "ms"@,
    );
}

/// A positive duplication with a positive correlation appears as
/// ` duplicate X% C%`.
pub proof fn law_command_states_duplicate(
    iface: Seq<char>,
    loss: Decimal,
    correlation: Option<Decimal>,
    delay_ms: Option<Decimal>,
    delay_jitter_ms: Option<Decimal>,
    delay_correlation: Option<Decimal>,
    duplicate_percent: Option<Decimal>,
    duplicate_correlation: Option<Decimal>,
    reorder_percent: Option<Decimal>,
    reorder_correlation: Option<Decimal>,
    reorder_gap: Option<u32>,
    corrupt_percent: Option<Decimal>,
    corrupt_correlation: Option<Decimal>,
    rate_limit_kbps: Option<u32>,
)
    requires
        is_pos_opt(duplicate_percent),
        is_pos_opt(duplicate_correlation),
    ensures
        ({
            let cmd = config_command_spec(
            iface,
            loss,
            correlation,
            delay_ms,
            delay_jitter_ms,
            delay_correlation,
            duplicate_percent,
            duplicate_correlation,
            reorder_percent,
            reorder_correlation,
            reorder_gap,
            corrupt_percent,
            corrupt_correlation,
            rate_limit_kbps,
        );
            contains_seq(
                cmd,
                " duplicate "@ + duplicate_percent->0.text() + "% "@ + duplicate_correlation->0.text()
                    + "%"@,
            )
        }),
{
    lemma_command_parts(iface, loss, correlation, delay_ms, delay_jitter_ms, delay_correlation, duplicate_percent, duplicate_correlation, reorder_percent, reorder_correlation, reorder_gap, corrupt_percent, corrupt_correlation, rate_limit_kbps,);
    lemma_pct_text(" duplicate "@, duplicate_percent, duplicate_correlation);
}

/// A positive reordering with a positive correlation and gap appears as
/// ` reorder X% C% gap G`.
pub proof fn law_command_states_reorder(
    iface: Seq<char>,
    loss: Decimal,
    correlation: Option<Decimal>,
    delay_ms: Option<Decimal>,
    delay_jitter_ms: Option<Decimal>,
    delay_correlation: Option<Decimal>,
    duplicate_percent: Option<Decimal>,
    duplicate_correlation: Option<Decimal>,
    reorder_percent: Option<Decimal>,
    reorder_correlation: Option<Decimal>,
    reorder_gap: Option<u32>,
    corrupt_percent: Option<Decimal>,
    corrupt_correlation: Option<Decimal>,
    rate_limit_kbps: Option<u32>,
)
    requires
        is_pos_opt(reorder_percent),
        is_pos_opt(reorder_correlation),
        reorder_gap matches Some(g) && g > 0,
    ensures
        ({
            let cmd = config_command_spec(
            iface,
            loss,
            correlation,
            delay_ms,
            delay_jitter_ms,
            delay_correlation,
            duplicate_percent,
            duplicate_correlation,
            reorder_percent,
            reorder_correlation,
            reorder_gap,
            corrupt_percent,
            corrupt_correlation,
            rate_limit_kbps,
        );
            contains_seq(
                cmd,
                " reorder "@ + reorder_percent->0.text() + "% "@ + reorder_correlation->0.text()
                    + "% gap "@ + nat_digits(reorder_gap->0 as nat),
            )
        }),
{
    lemma_command_parts(iface, loss, correlation, delay_ms, delay_jitter_ms, delay_correlation, duplicate_percent, duplicate_correlation, reorder_percent, reorder_correlation, reorder_gap, corrupt_percent, corrupt_correlation, rate_limit_kbps,);
    lemma_reorder_text(reorder_percent, reorder_correlation, reorder_gap);
}

/// A positive corruption with a positive correlation appears as
/// ` corrupt X% C%`.
pub proof fn law_command_states_corrupt(
    iface: Seq<char>,
    loss: Decimal,
    correlation: Option<Decimal>,
    delay_ms: Option<Decimal>,
    delay_jitter_ms: Option<Decimal>,
    delay_correlation: Option<Decimal>,
    duplicate_percent: Option<Decimal>,
    duplicate_correlation: Option<Decimal>,
    reorder_percent: Option<Decimal>,
    reorder_correlation: Option<Decimal>,
    reorder_gap: Option<u32>,
    corrupt_percent: Option<Decimal>,
    corrupt_correlation: Option<Decimal>,
    rate_limit_kbps: Option<u32>,
)
    requires
        is_pos_opt(corrupt_percent),
        is_pos_opt(corrupt_correlation),
    ensures
        ({
            let cmd = config_command_spec(
            iface,
            loss,
            correlation,
            delay_ms,
            delay_jitter_ms,
            delay_correlation,
            duplicate_percent,
            duplicate_correlation,
            reorder_percent,
            reorder_correlation,
            reorder_gap,
            corrupt_percent,
            corrupt_correlation,
            rate_limit_kbps,
        );
            contains_seq(
                cmd,
                " corrupt "@ + corrupt_percent->0.text() + "% "@ + corrupt_correlation->0.text()
                    + "%"@,
            )
        }),
{
    lemma_command_parts(iface, loss, correlation, delay_ms, delay_jitter_ms, delay_correlation, duplicate_percent, duplicate_correlation, reorder_percent, reorder_correlation, reorder_gap, corrupt_percent, corrupt_correlation, rate_limit_kbps,);
    lemma_pct_text(" corrupt "@, corrupt_percent, corrupt_correlation);
}

/// A positive rate appears as ` rate R`: whole megabits from 1000 kbit/s
/// up, else kilobits.
pub proof fn law_command_states_rate(
    iface: Seq<char>,
    loss: Decimal,
    correlation: Option<Decimal>,
    delay_ms: Option<Decimal>,
    delay_jitter_ms: Option<Decimal>,
    delay_correlation: Option<Decimal>,
    duplicate_percent: Option<Decimal>,
    duplicate_correlation: Option<Decimal>,
    reorder_percent: Option<Decimal>,
    reorder_correlation: Option<Decimal>,
    reorder_gap: Option<u32>,
    corrupt_percent: Option<Decimal>,
    corrupt_correlation: Option<Decimal>,
    rate_limit_kbps: Option<u32>,
)
    requires
        rate_limit_kbps matches Some(r) && r > 0,
    ensures
        ({
            let cmd = config_command_spec(
            iface,
            loss,
            correlation,
            delay_ms,
            delay_jitter_ms,
            delay_correlation,
            duplicate_percent,
            duplicate_correlation,
            reorder_percent,
            reorder_correlation,
            reorder_gap,
            corrupt_percent,
            corrupt_correlation,
            rate_limit_kbps,
        );
            &&& rate_limit_kbps->0 >= 1000 ==> contains_seq(
                cmd,
                " rate "@ + nat_digits((rate_limit_kbps->0 / 1000) as nat) + "mbit"@,
            )
            &&& rate_limit_kbps->0 < 1000 ==> contains_seq(
                cmd,
                " rate "@ + nat_digits(rate_limit_kbps->0 as nat) + "kbit"@,
            )
        }),
{
    lemma_command_parts(iface, loss, correlation, delay_ms, delay_jitter_ms, delay_correlation, duplicate_percent, duplicate_correlation, reorder_percent, reorder_correlation, reorder_gap, corrupt_percent, corrupt_correlation, rate_limit_kbps,);
    lemma_rate_text(rate_limit_kbps);
}

/// The rate part in words.
proof fn lemma_rate_text(rate_limit_kbps: Option<u32>)
    ensures
        (rate_limit_kbps matches Some(r) && r >= 1000) ==> rate_part(rate_limit_kbps) == " rate "@
            + nat_digits((rate_limit_kbps->0 / 1000) as nat) + "mbit"@,
        (rate_limit_kbps matches Some(r) && 0 < r < 1000) ==> rate_part(rate_limit_kbps) == " rate "@
            + nat_digits(rate_limit_kbps->0 as nat) + "kbit"@,
{
    if rate_limit_kbps matches Some(r) && r > 0 {
        let r = rate_limit_kbps->0;
        if r >= 1000 {
            assert(rate_part(rate_limit_kbps) =~= " rate "@ + nat_digits((r / 1000) as nat) + "mbit"@);
        } else {
            assert(rate_part(rate_limit_kbps) =~= " rate "@ + nat_digits(r as nat) + "kbit"@);
        }
    }
}

/// The command starts with its head.
proof fn lemma_command_head(iface: Seq<char>, cmd: Seq<char>, rest: Seq<char>)
    requires
        cmd == "tc qdisc replace dev "@ + iface + " root netem"@ + rest,
    ensures
        cmd.subrange(0, (21 + iface.len() + 11) as int) == "tc qdisc replace dev "@ + iface
            + " root netem"@,
{
    reveal_strlit("tc qdisc replace dev ");
    reveal_strlit(" root netem");
    assert(cmd.subrange(0, (21 + iface.len() + 11) as int) =~= "tc qdisc replace dev "@ + iface
        + " root netem"@);
}

/// The loss part in words.
proof fn lemma_loss_text(loss: Decimal, correlation: Option<Decimal>)
    ensures
        loss.is_pos() ==> contains_seq(loss_part(loss, correlation), " loss "@ + loss.text() + "%"@),
        loss.is_pos() && is_pos_opt(correlation) ==> loss_part(loss, correlation) == " loss "@
            + loss.text() + "% correlation "@ + correlation->0.text() + "%"@,
{
    if loss.is_pos() {
        let l = loss_part(loss, correlation);
        let m = " loss "@ + loss.text() + "%"@;
        reveal_strlit("%");
        assert(l =~= m + l.subrange(m.len() as int, l.len() as int));
        lemma_contains_prefix(m, l.subrange(m.len() as int, l.len() as int));
        if is_pos_opt(correlation) {
            reveal_strlit("% correlation ");
            reveal_strlit(" correlation ");
            assert(l =~= " loss "@ + loss.text() + "% correlation "@ + correlation->0.text() + "%"@);
        }
    }
}

/// The delay part in words.
proof fn lemma_delay_text(
    delay_ms: Option<Decimal>,
    delay_jitter_ms: Option<Decimal>,
    delay_correlation: Option<Decimal>,
)
    ensures
        is_pos_opt(delay_ms) ==> contains_seq(
            delay_part(delay_ms, delay_jitter_ms, delay_correlation),
            " delay "@ + delay_ms->0.text() + "ms"@,
        ),
        is_pos_opt(delay_ms) && is_pos_opt(delay_jitter_ms) && is_pos_opt(delay_correlation)
            ==> delay_part(delay_ms, delay_jitter_ms, delay_correlation) == " delay "@
            + delay_ms->0.text() + "ms "@ + delay_jitter_ms->0.text() + "ms "@
            + delay_correlation->0.text() + "%"@,
{
    if is_pos_opt(delay_ms) {
        let d = delay_part(delay_ms, delay_jitter_ms, delay_correlation);
        let m = " delay "@ + delay_ms->0.text() + "ms"@;
        reveal_strlit("ms");
        assert(d =~= m + d.subrange(m.len() as int, d.len() as int));
        lemma_contains_prefix(m, d.subrange(m.len() as int, d.len() as int));
        if is_pos_opt(delay_jitter_ms) && is_pos_opt(delay_correlation) {
            reveal_strlit("ms ");
            reveal_strlit("%");
            assert(d =~= " delay "@ + delay_ms->0.text() + "ms "@ + delay_jitter_ms->0.text()
                + "ms "@ + delay_correlation->0.text() + "%"@);
        }
    }
}

/// A percentage part with its correlation in words.
proof fn lemma_pct_text(keyword: Seq<char>, pct: Option<Decimal>, corr: Option<Decimal>)
    ensures
        is_pos_opt(pct) && is_pos_opt(corr) ==> pct_part(keyword, pct, corr) == keyword
            + pct->0.text() + "% "@ + corr->0.text() + "%"@,
{
    if is_pos_opt(pct) && is_pos_opt(corr) {
        reveal_strlit("% ");
        reveal_strlit("%");
        assert(pct_part(keyword, pct, corr) =~= keyword + pct->0.text() + "% "@ + corr->0.text()
            + "%"@);
    }
}

/// The reorder part with its correlation and gap in words.
proof fn lemma_reorder_text(
    reorder_percent: Option<Decimal>,
    reorder_correlation: Option<Decimal>,
    reorder_gap: Option<u32>,
)
    ensures
        is_pos_opt(reorder_percent) && is_pos_opt(reorder_correlation) && (reorder_gap matches Some(
            g,
        ) && g > 0) ==> reorder_part(reorder_percent, reorder_correlation, reorder_gap)
            == " reorder "@ + reorder_percent->0.text() + "% "@ + reorder_correlation->0.text()
            + "% gap "@ + nat_digits(reorder_gap->0 as nat),
{
    if is_pos_opt(reorder_percent) && is_pos_opt(reorder_correlation) && (reorder_gap matches Some(
        g,
    ) && g > 0) {
        lemma_pct_text(" reorder "@, reorder_percent, reorder_correlation);
        reveal_strlit("% gap ");
        reveal_strlit(" gap ");
        reveal_strlit("%");
        assert(reorder_part(reorder_percent, reorder_correlation, reorder_gap) =~= " reorder "@
            + reorder_percent->0.text() + "% "@ + reorder_correlation->0.text() + "% gap "@
            + nat_digits(reorder_gap->0 as nat));
    }
}

/// An applied configuration as reported to users: the flat parameters and
/// the equivalent `tc` command line.
#[derive(Clone, Debug)]
pub struct TcConfiguration {
    pub loss: Decimal,
    pub correlation: Option<Decimal>,
    pub delay_ms: Option<Decimal>,
    pub delay_jitter_ms: Option<Decimal>,
    pub delay_correlation: Option<Decimal>,
    pub duplicate_percent: Option<Decimal>,
    pub duplicate_correlation: Option<Decimal>,
    pub reorder_percent: Option<Decimal>,
    pub reorder_correlation: Option<Decimal>,
    pub reorder_gap: Option<u32>,
    pub corrupt_percent: Option<Decimal>,
    pub corrupt_correlation: Option<Decimal>,
    pub rate_limit_kbps: Option<u32>,
    pub command: String,
}

/// The option holds a positive value.
pub open spec fn is_pos_opt(o: Option<Decimal>) -> bool {
    o matches Some(d) && d.is_pos()
}

/// `" " + text + "%"` when the option holds a positive value.
pub open spec fn space_pct(o: Option<Decimal>) -> Seq<char> {
    if is_pos_opt(o) {
        seq![' '] + o->0.text() + seq!['%']
    } else {
        Seq::empty()
    }
}

/// The rate in `tc` units: whole megabits from 1000 kbit/s up, else kbit.
pub open spec fn rate_text(rate: u32) -> Seq<char> {
    if rate >= 1000 {
        nat_digits((rate / 1000) as nat) + "mbit"@
    } else {
        nat_digits(rate as nat) + "kbit"@
    }
}

/// ` loss X%` with ` correlation Y%` when the correlation is positive.
pub open spec fn loss_part(loss: Decimal, correlation: Option<Decimal>) -> Seq<char> {
    if loss.is_pos() {
        " loss "@ + loss.text() + seq!['%'] + if is_pos_opt(correlation) {
            " correlation "@ + correlation->0.text() + seq!['%']
        } else {
            Seq::empty()
        }
    } else {
        Seq::empty()
    }
}

/// ` delay Xms`, then ` Jms` for a positive jitter and ` C%` for a positive
/// correlation after it.
pub open spec fn delay_part(
    delay_ms: Option<Decimal>,
    delay_jitter_ms: Option<Decimal>,
    delay_correlation: Option<Decimal>,
) -> Seq<char> {
    if is_pos_opt(delay_ms) {
        " delay "@ + delay_ms->0.text() + "ms"@ + if is_pos_opt(delay_jitter_ms) {
            seq![' '] + delay_jitter_ms->0.text() + "ms"@ + space_pct(delay_correlation)
        } else {
            Seq::empty()
        }
    } else {
        Seq::empty()
    }
}

/// ` <keyword> X%` and ` C%` for a positive correlation.
pub open spec fn pct_part(keyword: Seq<char>, pct: Option<Decimal>, corr: Option<Decimal>) -> Seq<
    char,
> {
    if is_pos_opt(pct) {
        keyword + pct->0.text() + seq!['%'] + space_pct(corr)
    } else {
        Seq::empty()
    }
}

/// ` reorder X%`, ` C%` for a positive correlation, ` gap G` for a positive gap.
pub open spec fn reorder_part(
    reorder_percent: Option<Decimal>,
    reorder_correlation: Option<Decimal>,
    reorder_gap: Option<u32>,
) -> Seq<char> {
    if is_pos_opt(reorder_percent) {
        pct_part(" reorder "@, reorder_percent, reorder_correlation) + if reorder_gap matches Some(
            g,
        ) && g > 0 {
            " gap "@ + nat_digits(reorder_gap->0 as nat)
        } else {
            Seq::empty()
        }
    } else {
        Seq::empty()
    }
}

/// ` rate R` for a positive rate.
pub open spec fn rate_part(rate_limit_kbps: Option<u32>) -> Seq<char> {
    if rate_limit_kbps matches Some(r) && r > 0 {
        " rate "@ + rate_text(rate_limit_kbps->0)
    } else {
        Seq::empty()
    }
}

/// The `tc` command line describing a flat netem configuration.
pub open spec fn config_command_spec(
    iface: Seq<char>,
    loss: Decimal,
    correlation: Option<Decimal>,
    delay_ms: Option<Decimal>,
    delay_jitter_ms: Option<Decimal>,
    delay_correlation: Option<Decimal>,
    duplicate_percent: Option<Decimal>,
    duplicate_correlation: Option<Decimal>,
    reorder_percent: Option<Decimal>,
    reorder_correlation: Option<Decimal>,
    reorder_gap: Option<u32>,
    corrupt_percent: Option<Decimal>,
    corrupt_correlation: Option<Decimal>,
    rate_limit_kbps: Option<u32>,
) -> Seq<char> {
    "tc qdisc replace dev "@ + iface + " root netem"@ + loss_part(loss, correlation) + delay_part(
        delay_ms,
        delay_jitter_ms,
        delay_correlation,
    ) + pct_part(" duplicate "@, duplicate_percent, duplicate_correlation) + reorder_part(
        reorder_percent,
        reorder_correlation,
        reorder_gap,
    ) + pct_part(" corrupt "@, corrupt_percent, corrupt_correlation) + rate_part(rate_limit_kbps)
}

fn is_pos_exec(o: &Option<Decimal>) -> (r: bool)
    ensures
        r == is_pos_opt(*o),
{
    match o {
        Some(d) => d.is_positive(),
        None => false,
    }
}

fn push_space_pct(out: &mut String, o: &Option<Decimal>)
    ensures
        final(out)@ == old(out)@ + space_pct(*o),
{
    if is_pos_exec(o) {
        let d = o.unwrap();
        push_char(out, ' ');
        d.write_to(out);
        push_char(out, '%');
    }
}

fn push_rate(out: &mut String, rate: u32)
    ensures
        final(out)@ == old(out)@ + rate_text(rate),
{
    if rate >= 1000 {
        push_u64(out, (rate / 1000) as u64);
        push_str(out, "mbit");
    } else {
        push_u64(out, rate as u64);
        push_str(out, "kbit");
    }
}

fn push_loss_part(out: &mut String, loss: &Decimal, correlation: &Option<Decimal>)
    ensures
        final(out)@ == old(out)@ + loss_part(*loss, *correlation),
{
    if loss.is_positive() {
        push_str(out, " loss ");
        loss.write_to(out);
        push_char(out, '%');
        if is_pos_exec(correlation) {
            push_str(out, " correlation ");
            correlation.unwrap().write_to(out);
            push_char(out, '%');
        }
    }
}

fn push_delay_part(
    out: &mut String,
    delay_ms: &Option<Decimal>,
    delay_jitter_ms: &Option<Decimal>,
    delay_correlation: &Option<Decimal>,
)
    ensures
        final(out)@ == old(out)@ + delay_part(*delay_ms, *delay_jitter_ms, *delay_correlation),
{
    if is_pos_exec(delay_ms) {
        push_str(out, " delay ");
        delay_ms.unwrap().write_to(out);
        push_str(out, "ms");
        if is_pos_exec(delay_jitter_ms) {
            push_char(out, ' ');
            delay_jitter_ms.unwrap().write_to(out);
            push_str(out, "ms");
            push_space_pct(out, delay_correlation);
        }
    }
}

fn push_pct_part(out: &mut String, keyword: &str, pct: &Option<Decimal>, corr: &Option<Decimal>)
    ensures
        final(out)@ == old(out)@ + pct_part(keyword@, *pct, *corr),
{
    if is_pos_exec(pct) {
        push_str(out, keyword);
        pct.unwrap().write_to(out);
        push_char(out, '%');
        push_space_pct(out, corr);
    }
}

fn push_reorder_part(
    out: &mut String,
    reorder_percent: &Option<Decimal>,
    reorder_correlation: &Option<Decimal>,
    reorder_gap: &Option<u32>,
)
    ensures
        final(out)@ == old(out)@ + reorder_part(
            *reorder_percent,
            *reorder_correlation,
            *reorder_gap,
        ),
{
    if is_pos_exec(reorder_percent) {
        push_pct_part(out, " reorder ", reorder_percent, reorder_correlation);
        match reorder_gap {
            Some(g) => {
                if *g > 0 {
                    push_str(out, " gap ");
                    push_u64(out, *g as u64);
                }
            },
            None => {},
        }
    }
}

fn push_rate_part(out: &mut String, rate_limit_kbps: &Option<u32>)
    ensures
        final(out)@ == old(out)@ + rate_part(*rate_limit_kbps),
{
    match rate_limit_kbps {
        Some(r) => {
            if *r > 0 {
                push_str(out, " rate ");
                push_rate(out, *r);
            }
        },
        None => {},
    }
}

/// The flat configuration record and its `tc` command line.
pub fn build_tc_configuration(
    interface: &str,
    loss: Decimal,
    correlation: Option<Decimal>,
    delay_ms: Option<Decimal>,
    delay_jitter_ms: Option<Decimal>,
    delay_correlation: Option<Decimal>,
    duplicate_percent: Option<Decimal>,
    duplicate_correlation: Option<Decimal>,
    reorder_percent: Option<Decimal>,
    reorder_correlation: Option<Decimal>,
    reorder_gap: Option<u32>,
    corrupt_percent: Option<Decimal>,
    corrupt_correlation: Option<Decimal>,
    rate_limit_kbps: Option<u32>,
) -> (c: TcConfiguration)
    ensures
        c.loss == loss,
        c.correlation == correlation,
        c.delay_ms == delay_ms,
        c.delay_jitter_ms == delay_jitter_ms,
        c.delay_correlation == delay_correlation,
        c.duplicate_percent == duplicate_percent,
        c.duplicate_correlation == duplicate_correlation,
        c.reorder_percent == reorder_percent,
        c.reorder_correlation == reorder_correlation,
        c.reorder_gap == reorder_gap,
        c.corrupt_percent == corrupt_percent,
        c.corrupt_correlation == corrupt_correlation,
        c.rate_limit_kbps == rate_limit_kbps,
        c.command@ == config_command_spec(
            interface@,
            loss,
            correlation,
            delay_ms,
            delay_jitter_ms,
            delay_correlation,
            duplicate_percent,
            duplicate_correlation,
            reorder_percent,
            reorder_correlation,
            reorder_gap,
            corrupt_percent,
            corrupt_correlation,
            rate_limit_kbps,
        ),
{
    let mut cmd = owned("tc qdisc replace dev ");
    push_str(&mut cmd, interface);
    push_str(&mut cmd, " root netem");
    push_loss_part(&mut cmd, &loss, &correlation);
    push_delay_part(&mut cmd, &delay_ms, &delay_jitter_ms, &delay_correlation);
    push_pct_part(&mut cmd, " duplicate ", &duplicate_percent, &duplicate_correlation);
    push_reorder_part(&mut cmd, &reorder_percent, &reorder_correlation, &reorder_gap);
    push_pct_part(&mut cmd, " corrupt ", &corrupt_percent, &corrupt_correlation);
    push_rate_part(&mut cmd, &rate_limit_kbps);
    TcConfiguration {
        loss,
        correlation,
        delay_ms,
        delay_jitter_ms,
        delay_correlation,
        duplicate_percent,
        duplicate_correlation,
        reorder_percent,
        reorder_correlation,
        reorder_gap,
        corrupt_percent,
        corrupt_correlation,
        rate_limit_kbps,
        command: cmd,
    }
}

/// Whether flat parameters ask for any netem effect: a positive loss,
/// delay, duplication, reordering, corruption or rate limit. Without one
/// the qdisc is removed instead of installed.
pub open spec fn meaningful_spec(
    loss: Decimal,
    delay_ms: Option<Decimal>,
    duplicate_percent: Option<Decimal>,
    reorder_percent: Option<Decimal>,
    corrupt_percent: Option<Decimal>,
    rate_limit_kbps: Option<u32>,
) -> bool {
    loss.is_pos() || is_pos_opt(delay_ms) || is_pos_opt(duplicate_percent) || is_pos_opt(
        reorder_percent,
    ) || is_pos_opt(corrupt_percent) || (rate_limit_kbps matches Some(r) && r > 0)
}

/// Whether flat parameters ask for any netem effect (see `meaningful_spec`).
pub fn has_meaningful_params(
    loss: Decimal,
    delay_ms: Option<Decimal>,
    duplicate_percent: Option<Decimal>,
    reorder_percent: Option<Decimal>,
    corrupt_percent: Option<Decimal>,
    rate_limit_kbps: Option<u32>,
) -> (r: bool)
    ensures
        r == meaningful_spec(
            loss,
            delay_ms,
            duplicate_percent,
            reorder_percent,
            corrupt_percent,
            rate_limit_kbps,
        ),
{
    let rate = match rate_limit_kbps {
        Some(r) => r > 0,
        None => false,
    };
    loss.is_positive() || is_pos_exec(&delay_ms) || is_pos_exec(&duplicate_percent) || is_pos_exec(
        &reorder_percent,
    ) || is_pos_exec(&corrupt_percent) || rate
}

} // verus!
