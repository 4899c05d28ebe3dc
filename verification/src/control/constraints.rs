//! The constraints C1 to C15 that a launch request must meet before any
//! traffic is produced.

use crate::clock::local_hour;
use crate::config::{Config, production_cidrs_view};
use crate::ip::{
    IpAddress, cidr_contains, cidr_mask_overflows, parse_ip, parse_ip_range, parse_ip_str,
    parse_u8_range, v4_mask,
};
use crate::scenarios::catalogue::{
    catalog_scenarios, find_by_id, find_scenario, lemma_max_duration_bounded, max_duration_for,
    spec_max_duration_for,
};
use crate::text::{chars_of, decimal, push_decimal, split_range, str_eq, trim, trim_str};
use vstd::prelude::*;
use vstd::string::*;

verus! {

/// What a launch request carries, with the two facts the server adds: the
/// caller's token was valid, a simulation is already running.
#[derive(Debug)]
pub struct LaunchContext {
    pub scenario: String,
    pub target: String,
    pub authorized_by: Option<String>,
    pub authorization_ref: Option<String>,
    pub snapshot_id: Option<String>,
    pub rollback_plan_id: Option<String>,
    pub max_duration_seconds: Option<u64>,
    pub token_valid: bool,
    pub simulation_active: bool,
}

/// The first constraint that a launch request breaks.
#[derive(Debug)]
pub struct ConstraintViolation {
    pub code: String,
    pub constraint: &'static str,
    pub message: String,
}

/// A violation as texts: constraint, code, message.
pub struct ViolationView {
    pub constraint: Seq<char>,
    pub code: Seq<char>,
    pub message: Seq<char>,
}

pub open spec fn violation(constraint: Seq<char>, code: Seq<char>, message: Seq<char>) -> Option<
    ViolationView,
> {
    Some(ViolationView { constraint, code, message })
}

impl View for ConstraintViolation {
    type V = ViolationView;

    open spec fn view(&self) -> ViolationView {
        ViolationView { constraint: self.constraint@, code: self.code@, message: self.message@ }
    }
}

/// The violation that a check result reports, if any.
pub open spec fn outcome(r: Result<(), ConstraintViolation>) -> Option<ViolationView> {
    match r {
        Ok(_) => None,
        Err(v) => Some(v@),
    }
}

/// The text of an optional field, empty when absent.
pub open spec fn opt_text(o: Option<String>) -> Seq<char> {
    match o {
        Some(s) => s@,
        None => Seq::empty(),
    }
}

/// An optional field that is absent or only whitespace.
pub open spec fn blank(o: Option<String>) -> bool {
    trim(opt_text(o)).len() == 0
}

/// C2: a formal authorisation names who authorised the launch, and its
/// written reference where the configuration asks for one.
pub open spec fn spec_check_authorization(ctx: LaunchContext, cfg: Config) -> Option<ViolationView> {
    if !cfg.require_authorization {
        None
    } else if blank(ctx.authorized_by) {
        violation(
            "C2"@,
            "ADMIN_APPROVAL_REQUIRED"@,
            "authorized_by obligatoire (autorisation formelle C2)"@,
        )
    } else if cfg.require_authorization_ref && blank(ctx.authorization_ref) {
        violation("C2"@, "INVALID_REQUEST"@, "authorization_ref obligatoire (référence écrite C2)"@)
    } else {
        None
    }
}

/// The first block of `cidrs` that holds `ip`.
pub open spec fn first_block_holding(ip: IpAddress, cidrs: Seq<Seq<char>>) -> Option<Seq<char>>
    decreases cidrs.len(),
{
    if cidrs.len() == 0 {
        None
    } else if cidr_contains(ip, cidrs[0]) {
        Some(cidrs[0])
    } else {
        first_block_holding(ip, cidrs.drop_first())
    }
}

/// C1 and C11: the target is an address inside the sandbox and outside
/// every production block.
pub open spec fn spec_check_sandbox_target(target: Seq<char>, cfg: Config) -> Option<ViolationView> {
    match parse_ip(trim(target)) {
        None => violation("C1"@, "INVALID_IP_FORMAT"@, "IP invalide: "@ + target),
        Some(ip) => if !cidr_contains(ip, cfg.sandbox_cidr@) {
            violation(
                "C1"@,
                "INVALID_REQUEST"@,
                "Cible "@ + target + " hors sandbox "@ + cfg.sandbox_cidr@ + " (C1)"@,
            )
        } else {
            match first_block_holding(ip, production_cidrs_view(cfg)) {
                Some(b) => violation(
                    "C11"@,
                    "INVALID_REQUEST"@,
                    "Cible "@ + target + " dans segment production "@ + b + " (C11)"@,
                ),
                None => None,
            }
        },
    }
}

/// C10: the scenario is in the catalogue and the requested duration is
/// within its limit.
pub open spec fn spec_check_scenario_and_duration(ctx: LaunchContext) -> Option<ViolationView> {
    if find_by_id(catalog_scenarios(), ctx.scenario@) is None {
        violation("C10"@, "INVALID_REQUEST"@, "Scénario inconnu: "@ + ctx.scenario@)
    } else {
        let max_allowed = spec_max_duration_for(ctx.scenario@);
        match ctx.max_duration_seconds {
            Some(req) => if req > max_allowed {
                violation(
                    "C10"@,
                    "INVALID_REQUEST"@,
                    "Durée demandée "@ + decimal(req as nat) + "s > max "@ + decimal(
                        max_allowed as nat,
                    ) + "s pour "@ + ctx.scenario@ + " (C10)"@,
                )
            } else {
                None
            },
            None => None,
        }
    }
}

/// C10: at local hour `hour`, a launch falls in the allowed window (where
/// the window is enforced).
pub open spec fn spec_check_launch_window(cfg: Config, hour: u32) -> Option<ViolationView> {
    if !cfg.enforce_launch_window {
        None
    } else if cfg.launch_hour_start <= hour && hour < cfg.launch_hour_end {
        None
    } else {
        violation(
            "C10"@,
            "INVALID_REQUEST"@,
            "Hors fenêtre autorisée "@ + decimal(cfg.launch_hour_start as nat) + "h-"@ + decimal(
                cfg.launch_hour_end as nat,
            ) + "h (C10)"@,
        )
    }
}

/// C4: outside dry runs, a snapshot exists where the configuration asks for one.
pub open spec fn spec_check_snapshot(ctx: LaunchContext, cfg: Config) -> Option<ViolationView> {
    if cfg.dry_run || !cfg.require_snapshot {
        None
    } else if blank(ctx.snapshot_id) {
        violation(
            "C4"@,
            "INVALID_REQUEST"@,
            "snapshot_id obligatoire avant lancement (C4 — Versionneur)"@,
        )
    } else {
        None
    }
}

/// C12: outside dry runs, a rollback plan exists where the configuration
/// asks for one.
pub open spec fn spec_check_rollback_plan(ctx: LaunchContext, cfg: Config) -> Option<ViolationView> {
    if cfg.dry_run || !cfg.require_rollback_plan {
        None
    } else if blank(ctx.rollback_plan_id) {
        violation(
            "C12"@,
            "INVALID_REQUEST"@,
            "rollback_plan_id obligatoire (C12 — plan retour état normal)"@,
        )
    } else {
        None
    }
}

/// The checks that come before the sandbox check all pass.
pub open spec fn reaches_sandbox_check(ctx: LaunchContext, cfg: Config) -> bool {
    !ctx.simulation_active && ctx.token_valid && spec_check_authorization(ctx, cfg) is None
}

/// The first violation of a launch request at local hour `hour`, checking
/// in order C9, C3, C2, C1/C11, C10 (scenario, duration, window), C4, C12.
pub open spec fn spec_validate(ctx: LaunchContext, cfg: Config, hour: u32) -> Option<ViolationView> {
    if ctx.simulation_active {
        violation("C9"@, "SIMULATION_ACTIVE"@, "Simulation déjà active"@)
    } else if !ctx.token_valid {
        violation("C3"@, "INSUFFICIENT_PERMISSIONS"@, "Token X-Agent-Token invalide ou absent"@)
    } else if spec_check_authorization(ctx, cfg) is Some {
        spec_check_authorization(ctx, cfg)
    } else if spec_check_sandbox_target(ctx.target@, cfg) is Some {
        spec_check_sandbox_target(ctx.target@, cfg)
    } else if spec_check_scenario_and_duration(ctx) is Some {
        spec_check_scenario_and_duration(ctx)
    } else if spec_check_launch_window(cfg, hour) is Some {
        spec_check_launch_window(cfg, hour)
    } else if spec_check_snapshot(ctx, cfg) is Some {
        spec_check_snapshot(ctx, cfg)
    } else {
        spec_check_rollback_plan(ctx, cfg)
    }
}

/// Some comparison of the production blocks, made in order until one holds
/// `ip`, would overflow the mask.
pub open spec fn production_check_overflows(ip: IpAddress, cidrs: Seq<Seq<char>>) -> bool
    decreases cidrs.len(),
{
    cidrs.len() > 0 && (cidr_mask_overflows(ip, cidrs[0]) || (!cidr_contains(ip, cidrs[0])
        && production_check_overflows(ip, cidrs.drop_first())))
}

/// The sandbox check of `target` would compare an IPv4 address against a
/// block with prefix 0, whose mask computation overflows.
pub open spec fn sandbox_check_overflows(target: Seq<char>, cfg: Config) -> bool {
    match parse_ip(trim(target)) {
        None => false,
        Some(ip) => cidr_mask_overflows(ip, cfg.sandbox_cidr@) || (cidr_contains(
            ip,
            cfg.sandbox_cidr@,
        ) && production_check_overflows(ip, production_cidrs_view(cfg))),
    }
}

fn new_violation(constraint: &'static str, code: &str, message: String) -> (r: ConstraintViolation)
    ensures
        r@ == (ViolationView { constraint: constraint@, code: code@, message: message@ }),
{
    ConstraintViolation { code: String::from_str(code), constraint, message }
}

/// Whether an optional field is absent or only whitespace.
fn is_blank(o: &Option<String>) -> (r: bool)
    ensures
        r == blank(*o),
{
    match o {
        Some(s) => trim_str(s.as_str()).unicode_len() == 0,
        None => {
            assert(trim(Seq::<char>::empty()) =~= Seq::<char>::empty());
            true
        },
    }
}

/// C9: only one simulation at a time.
pub fn check_no_active_simulation(active: bool) -> (r: Result<(), String>)
    ensures
        active ==> (r matches Err(e) && e@ == "SIMULATION_ACTIVE"@),
        !active ==> r is Ok,
{
    if active {
        Err(String::from_str("SIMULATION_ACTIVE"))
    } else {
        Ok(())
    }
}

/// C3: the presented token is the expected one.
pub fn check_token(received: &str, expected: &str) -> (r: Result<(), String>)
    ensures
        received@ == expected@ ==> r is Ok,
        received@ != expected@ ==> (r matches Err(e) && e@ == "INSUFFICIENT_PERMISSIONS"@),
{
    if str_eq(received, expected) {
        Ok(())
    } else {
        Err(String::from_str("INSUFFICIENT_PERMISSIONS"))
    }
}

fn check_authorization(ctx: &LaunchContext, cfg: &Config) -> (r: Result<(), ConstraintViolation>)
    ensures
        outcome(r) == spec_check_authorization(*ctx, *cfg),
{
    if !cfg.require_authorization {
        return Ok(());
    }
    if is_blank(&ctx.authorized_by) {
        return Err(
            new_violation(
                "C2",
                "ADMIN_APPROVAL_REQUIRED",
                String::from_str("authorized_by obligatoire (autorisation formelle C2)"),
            ),
        );
    }
    if cfg.require_authorization_ref {
        if is_blank(&ctx.authorization_ref) {
            return Err(
                new_violation(
                    "C2",
                    "INVALID_REQUEST",
                    String::from_str("authorization_ref obligatoire (référence écrite C2)"),
                ),
            );
        }
    }
    Ok(())
}

/// Whether `ip` falls in the block `cidr` (see `cidr_contains`).
pub fn ip_in_cidr(ip: IpAddress, cidr: &str) -> (r: bool)
    requires
        !cidr_mask_overflows(ip, cidr@),
    ensures
        r == cidr_contains(ip, cidr@),
{
    let v = chars_of(cidr);
    assert(v@.subrange(0, v.len() as int) =~= cidr@);
    let parts = split_range(&v, 0, v.len(), '/');
    if parts.len() != 2 {
        return true;
    }
    let net_text = &parts[0];
    let prefix_text = &parts[1];
    assert(net_text@.subrange(0, net_text.len() as int) =~= net_text@);
    assert(prefix_text@.subrange(0, prefix_text.len() as int) =~= prefix_text@);
    let net = parse_ip_range(net_text, 0, net_text.len());
    match net {
        None => false,
        Some(net) => {
            match parse_u8_range(prefix_text, 0, prefix_text.len()) {
                None => false,
                Some(prefix) => {
                    match (ip, net) {
                        (IpAddress::V4(a), IpAddress::V4(n)) => {
                            let mask: u32 = if prefix >= 32 {
                                0xffff_ffffu32
                            } else {
                                0xffff_ffffu32 << ((32 - prefix) as u32)
                            };
                            assert(mask == v4_mask(prefix));
                            (a & mask) == (n & mask)
                        },
                        (IpAddress::V6, IpAddress::V6) => true,
                        _ => false,
                    }
                },
            }
        },
    }
}

/// Whether the mask of `cidr` would overflow when compared with `ip`.
pub fn mask_overflows(ip: IpAddress, cidr: &str) -> (r: bool)
    ensures
        r == cidr_mask_overflows(ip, cidr@),
{
    let v = chars_of(cidr);
    assert(v@.subrange(0, v.len() as int) =~= cidr@);
    let parts = split_range(&v, 0, v.len(), '/');
    if parts.len() != 2 {
        return false;
    }
    if let IpAddress::V6 = ip {
        return false;
    }
    let net_text = &parts[0];
    let prefix_text = &parts[1];
    assert(net_text@.subrange(0, net_text.len() as int) =~= net_text@);
    assert(prefix_text@.subrange(0, prefix_text.len() as int) =~= prefix_text@);
    let net = parse_ip_range(net_text, 0, net_text.len());
    let prefix = parse_u8_range(prefix_text, 0, prefix_text.len());
    match (net, prefix) {
        (Some(IpAddress::V4(_)), Some(p)) => p == 0,
        _ => false,
    }
}

/// Whether the sandbox check of `target` under `cfg` would overflow a mask.
/// A caller tests this before `validate_all`, whose `requires` leaves such
/// inputs out.
pub fn sandbox_check_would_overflow(target: &str, cfg: &Config) -> (r: bool)
    ensures
        r == sandbox_check_overflows(target@, *cfg),
{
    let t = trim_str(target);
    let ip = match parse_ip_str(t) {
        None => return false,
        Some(ip) => ip,
    };
    if mask_overflows(ip, cfg.sandbox_cidr.as_str()) {
        return true;
    }
    if !ip_in_cidr(ip, cfg.sandbox_cidr.as_str()) {
        return false;
    }
    let ghost all = production_cidrs_view(*cfg);
    let n = cfg.production_cidrs.len();
    let mut i: usize = 0;
    assert(all.skip(0) =~= all);
    while i < n
        invariant
            n == cfg.production_cidrs.len(),
            all == production_cidrs_view(*cfg),
            i <= n,
            sandbox_check_overflows(target@, *cfg) == production_check_overflows(
                ip,
                all.skip(i as int),
            ),
            parse_ip(trim(target@)) == Some(ip),
        decreases n - i,
    {
        let c = cfg.production_cidrs[i].as_str();
        assert(all.skip(i as int)[0] == c@);
        if mask_overflows(ip, c) {
            return true;
        }
        if ip_in_cidr(ip, c) {
            return false;
        }
        assert(all.skip(i as int).drop_first() =~= all.skip(i as int + 1));
        i = i + 1;
    }
    false
}

/// Whether validating `ctx` would reach the sandbox check and overflow a
/// mask there: the requests that `validate_all` leaves out. A caller tests
/// this first.
pub fn validation_would_overflow(ctx: &LaunchContext, cfg: &Config) -> (r: bool)
    ensures
        r == (reaches_sandbox_check(*ctx, *cfg) && sandbox_check_overflows(ctx.target@, *cfg)),
{
    !ctx.simulation_active && ctx.token_valid && check_authorization(ctx, cfg).is_ok()
        && sandbox_check_would_overflow(ctx.target.as_str(), cfg)
}

fn check_sandbox_target(target: &str, cfg: &Config) -> (r: Result<(), ConstraintViolation>)
    requires
        !sandbox_check_overflows(target@, *cfg),
    ensures
        outcome(r) == spec_check_sandbox_target(target@, *cfg),
{
    let ip = match parse_ip_str(trim_str(target)) {
        None => {
            let mut m = String::from_str("IP invalide: ");
            m.append(target);
            return Err(new_violation("C1", "INVALID_IP_FORMAT", m));
        },
        Some(ip) => ip,
    };
    if !ip_in_cidr(ip, cfg.sandbox_cidr.as_str()) {
        let mut m = String::from_str("Cible ");
        m.append(target);
        m.append(" hors sandbox ");
        m.append(cfg.sandbox_cidr.as_str());
        m.append(" (C1)");
        return Err(new_violation("C1", "INVALID_REQUEST", m));
    }
    match first_production_block(ip, cfg) {
        Some(i) => {
            let blocked = cfg.production_cidrs[i].as_str();
            let mut m = String::from_str("Cible ");
            m.append(target);
            m.append(" dans segment production ");
            m.append(blocked);
            m.append(" (C11)");
            Err(new_violation("C11", "INVALID_REQUEST", m))
        },
        None => Ok(()),
    }
}

/// The index of the first production block that holds `ip`.
fn first_production_block(ip: IpAddress, cfg: &Config) -> (r: Option<usize>)
    requires
        !production_check_overflows(ip, production_cidrs_view(*cfg)),
    ensures
        match first_block_holding(ip, production_cidrs_view(*cfg)) {
            Some(b) => r matches Some(i) && i < cfg.production_cidrs.len()
                && cfg.production_cidrs@[i as int]@ == b,
            None => r is None,
        },
{
    let ghost all = production_cidrs_view(*cfg);
    let n = cfg.production_cidrs.len();
    let mut i: usize = 0;
    assert(all.skip(0) =~= all);
    while i < n
        invariant
            n == cfg.production_cidrs.len(),
            all == production_cidrs_view(*cfg),
            i <= n,
            first_block_holding(ip, all) == first_block_holding(ip, all.skip(i as int)),
            !production_check_overflows(ip, all.skip(i as int)),
        decreases n - i,
    {
        let blocked = cfg.production_cidrs[i].as_str();
        assert(all.skip(i as int)[0] == blocked@);
        if ip_in_cidr(ip, blocked) {
            return Some(i);
        }
        assert(all.skip(i as int).drop_first() =~= all.skip(i as int + 1));
        i = i + 1;
    }
    None
}

fn check_scenario_and_duration(ctx: &LaunchContext) -> (r: Result<(), ConstraintViolation>)
    ensures
        outcome(r) == spec_check_scenario_and_duration(*ctx),
{
    if find_scenario(ctx.scenario.as_str()).is_none() {
        let mut m = String::from_str("Scénario inconnu: ");
        m.append(ctx.scenario.as_str());
        return Err(new_violation("C10", "INVALID_REQUEST", m));
    }
    let max_allowed = max_duration_for(ctx.scenario.as_str());
    if let Some(req) = ctx.max_duration_seconds {
        if req > max_allowed {
            let mut m = String::from_str("Durée demandée ");
            push_decimal(&mut m, req);
            m.append("s > max ");
            push_decimal(&mut m, max_allowed);
            m.append("s pour ");
            m.append(ctx.scenario.as_str());
            m.append(" (C10)");
            return Err(new_violation("C10", "INVALID_REQUEST", m));
        }
    }
    Ok(())
}

/// C10 at local hour `hour`.
pub fn check_launch_window_at(cfg: &Config, hour: u32) -> (r: Result<(), ConstraintViolation>)
    ensures
        outcome(r) == spec_check_launch_window(*cfg, hour),
{
    if !cfg.enforce_launch_window {
        return Ok(());
    }
    if hour >= cfg.launch_hour_start && hour < cfg.launch_hour_end {
        Ok(())
    } else {
        let mut m = String::from_str("Hors fenêtre autorisée ");
        push_decimal(&mut m, cfg.launch_hour_start as u64);
        m.append("h-");
        push_decimal(&mut m, cfg.launch_hour_end as u64);
        m.append("h (C10)");
        Err(new_violation("C10", "INVALID_REQUEST", m))
    }
}

fn check_snapshot(ctx: &LaunchContext, cfg: &Config) -> (r: Result<(), ConstraintViolation>)
    ensures
        outcome(r) == spec_check_snapshot(*ctx, *cfg),
{
    if cfg.dry_run || !cfg.require_snapshot {
        return Ok(());
    }
    if is_blank(&ctx.snapshot_id) {
        Err(
            new_violation(
                "C4",
                "INVALID_REQUEST",
                String::from_str("snapshot_id obligatoire avant lancement (C4 — Versionneur)"),
            ),
        )
    } else {
        Ok(())
    }
}

fn check_rollback_plan(ctx: &LaunchContext, cfg: &Config) -> (r: Result<(), ConstraintViolation>)
    ensures
        outcome(r) == spec_check_rollback_plan(*ctx, *cfg),
{
    if cfg.dry_run || !cfg.require_rollback_plan {
        return Ok(());
    }
    if is_blank(&ctx.rollback_plan_id) {
        Err(
            new_violation(
                "C12",
                "INVALID_REQUEST",
                String::from_str("rollback_plan_id obligatoire (C12 — plan retour état normal)"),
            ),
        )
    } else {
        Ok(())
    }
}

/// The checks that come before the launch window: C9, C3, C2, C1/C11, and
/// the scenario and duration of C10.
fn checks_before_window(ctx: &LaunchContext, cfg: &Config) -> (r: Result<(), ConstraintViolation>)
    requires
        reaches_sandbox_check(*ctx, *cfg) ==> !sandbox_check_overflows(ctx.target@, *cfg),
    ensures
        forall|h: u32|
            #![trigger spec_validate(*ctx, *cfg, h)]
            r is Err ==> outcome(r) == spec_validate(*ctx, *cfg, h),
        r is Ok ==> !ctx.simulation_active && ctx.token_valid && spec_check_authorization(*ctx, *cfg) is None
            && spec_check_sandbox_target(ctx.target@, *cfg) is None
            && spec_check_scenario_and_duration(*ctx) is None,
{
    if let Err(_) = check_no_active_simulation(ctx.simulation_active) {
        return Err(
            new_violation("C9", "SIMULATION_ACTIVE", String::from_str("Simulation déjà active")),
        );
    }
    if !ctx.token_valid {
        return Err(
            new_violation(
                "C3",
                "INSUFFICIENT_PERMISSIONS",
                String::from_str("Token X-Agent-Token invalide ou absent"),
            ),
        );
    }
    let a = check_authorization(ctx, cfg);
    if a.is_err() {
        return a;
    }
    let b = check_sandbox_target(ctx.target.as_str(), cfg);
    if b.is_err() {
        return b;
    }
    check_scenario_and_duration(ctx)
}

/// The checks that come after the launch window: C4 and C12.
fn checks_after_window(ctx: &LaunchContext, cfg: &Config) -> (r: Result<(), ConstraintViolation>)
    ensures
        outcome(r) == if spec_check_snapshot(*ctx, *cfg) is Some {
            spec_check_snapshot(*ctx, *cfg)
        } else {
            spec_check_rollback_plan(*ctx, *cfg)
        },
{
    let e = check_snapshot(ctx, cfg);
    if e.is_err() {
        return e;
    }
    check_rollback_plan(ctx, cfg)
}

/// C1–C15 as a launch request meets them, in order, with the local hour
/// `hour`: the first violation, if any.
pub fn validate_all_at(ctx: &LaunchContext, cfg: &Config, hour: u32) -> (r: Result<
    (),
    ConstraintViolation,
>)
    requires
        reaches_sandbox_check(*ctx, *cfg) ==> !sandbox_check_overflows(ctx.target@, *cfg),
    ensures
        outcome(r) == spec_validate(*ctx, *cfg, hour),
{
    let a = checks_before_window(ctx, cfg);
    if a.is_err() {
        return a;
    }
    let d = check_launch_window_at(cfg, hour);
    if d.is_err() {
        return d;
    }
    checks_after_window(ctx, cfg)
}

/// Checks a launch request against the constraints, in order, and reports
/// the first one broken. The local hour is read where the launch window is
/// enforced: the result is that of `validate_all_at` at the hour read.
pub fn validate_all(ctx: &LaunchContext, cfg: &Config) -> (r: Result<(), ConstraintViolation>)
    requires
        reaches_sandbox_check(*ctx, *cfg) ==> !sandbox_check_overflows(ctx.target@, *cfg),
    ensures
        exists|h: u32| h < 24 && outcome(r) == spec_validate(*ctx, *cfg, h),
        !cfg.enforce_launch_window ==> outcome(r) == spec_validate(*ctx, *cfg, 0),
{
    let hour = if cfg.enforce_launch_window {
        local_hour()
    } else {
        0
    };
    validate_all_at(ctx, cfg, hour)
}

/// No block of `cidrs` holds `ip` when the search finds none.
pub proof fn lemma_no_block_holding(ip: IpAddress, cidrs: Seq<Seq<char>>)
    requires
        first_block_holding(ip, cidrs) is None,
    ensures
        forall|k: int| 0 <= k < cidrs.len() ==> !cidr_contains(ip, #[trigger] cidrs[k]),
    decreases cidrs.len(),
{
    if cidrs.len() > 0 {
        lemma_no_block_holding(ip, cidrs.drop_first());
        assert forall|k: int| 0 <= k < cidrs.len() implies !cidr_contains(ip, #[trigger] cidrs[k]) by {
            if k > 0 {
                assert(cidrs[k] == cidrs.drop_first()[k - 1]);
            }
        }
    }
}

/// C1 and C11: a launch that passes the constraints aims at an address of the
/// sandbox that lies in no production block.
pub proof fn law_accepted_target_is_isolated(ctx: LaunchContext, cfg: Config, hour: u32)
    requires
        spec_validate(ctx, cfg, hour) is None,
    ensures
        exists|ip: IpAddress|
            parse_ip(trim(ctx.target@)) == Some(ip) && cidr_contains(ip, cfg.sandbox_cidr@)
                && forall|k: int|
                0 <= k < production_cidrs_view(cfg).len() ==> !cidr_contains(
                    ip,
                    #[trigger] production_cidrs_view(cfg)[k],
                ),
{
    let ip = parse_ip(trim(ctx.target@))->0;
    lemma_no_block_holding(ip, production_cidrs_view(cfg));
}

/// C9 and C3: a launch is refused while a simulation is active, and then with
/// an invalid token, whatever else it asks.
pub proof fn law_active_or_unauthenticated_refused(ctx: LaunchContext, cfg: Config, hour: u32)
    ensures
        ctx.simulation_active ==> (spec_validate(ctx, cfg, hour) matches Some(v) && v.constraint
            == "C9"@),
        !ctx.simulation_active && !ctx.token_valid ==> (spec_validate(ctx, cfg, hour) matches Some(
            v,
        ) && v.constraint == "C3"@),
{
}

/// A launch that passes the constraints names a scenario of the catalogue and
/// asks for no more than its duration limit (C10).
pub proof fn law_accepted_scenario_is_known(ctx: LaunchContext, cfg: Config, hour: u32)
    requires
        spec_validate(ctx, cfg, hour) is None,
    ensures
        find_by_id(catalog_scenarios(), ctx.scenario@) is Some,
        ctx.max_duration_seconds matches Some(d) ==> d <= spec_max_duration_for(ctx.scenario@)
            && d <= 300,
{
    lemma_max_duration_bounded(ctx.scenario@);
}

/// A launch that passes the constraints comes from no active simulation
/// (C9) with a valid token (C3), names who authorised it and the written
/// reference where these are required (C2), falls in the launch window at
/// the hour of the check where it is enforced (C10), and outside dry runs
/// carries the snapshot (C4) and rollback plan (C12) that are required.
pub proof fn law_accepted_launch_meets_requirements(ctx: LaunchContext, cfg: Config, hour: u32)
    requires
        spec_validate(ctx, cfg, hour) is None,
    ensures
        !ctx.simulation_active,
        ctx.token_valid,
        cfg.require_authorization ==> !blank(ctx.authorized_by),
        cfg.require_authorization && cfg.require_authorization_ref ==> !blank(
            ctx.authorization_ref,
        ),
        cfg.enforce_launch_window ==> cfg.launch_hour_start <= hour < cfg.launch_hour_end,
        !cfg.dry_run && cfg.require_snapshot ==> !blank(ctx.snapshot_id),
        !cfg.dry_run && cfg.require_rollback_plan ==> !blank(ctx.rollback_plan_id),
{
}

/// In a dry run, the snapshot (C4) and rollback plan (C12) are not required.
pub proof fn law_dry_run_relaxes_snapshot_and_rollback(ctx: LaunchContext, cfg: Config)
    requires
        cfg.dry_run,
    ensures
        spec_check_snapshot(ctx, cfg) is None,
        spec_check_rollback_plan(ctx, cfg) is None,
{
}

} // verus!
