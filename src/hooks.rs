//! Native interception pipeline: the redirect policy that is active in the
//! process, the decision taken on every intercepted file-open call, and the
//! capability that either enforces plans or only accepts them.
//!
//! The trampoline on the platform's file-open entry point is installed by
//! the host program; this module tells it when installation is due and what
//! each intercepted call forwards.

use vstd::prelude::*;
use crate::paths::{path_join, path_remainder, path_starts_with, join_path, remainder_after, starts_with_path};
use crate::runtime::{HookPlan, PathRedirect};

verus! {

/// A redirect rule as a pair of paths: (original prefix, redirected base).
pub type Rule = (Seq<char>, Seq<char>);

pub open spec fn rules_view(rules: Seq<PathRedirect>) -> Seq<Rule> {
    rules.map_values(|r: PathRedirect| (r.original@, r.redirected@))
}

pub open spec fn opt_view(o: Option<String>) -> Option<Seq<char>> {
    match o {
        Some(s) => Some(s@),
        None => None,
    }
}

/// Result of rewriting `p` with the rules from index `i` on: the first rule
/// whose original is an ancestor of `p` decides.
pub open spec fn redirect_from(rules: Seq<Rule>, p: Seq<char>, i: int) -> Option<Seq<char>>
    decreases rules.len() - i,
{
    if i < 0 || i >= rules.len() {
        None
    } else if path_starts_with(p, rules[i].0) {
        Some(path_join(rules[i].1, path_remainder(p, rules[i].0)))
    } else {
        redirect_from(rules, p, i + 1)
    }
}

/// Result of rewriting `p` with `rules` in declaration order.
pub open spec fn redirect_path(rules: Seq<Rule>, p: Seq<char>) -> Option<Seq<char>> {
    redirect_from(rules, p, 0)
}

proof fn lemma_redirect_skips(rules: Seq<Rule>, p: Seq<char>, i: int, k: int)
    requires
        0 <= i <= k < rules.len(),
        forall|j: int| 0 <= j < k ==> !path_starts_with(p, #[trigger] rules[j].0),
    ensures
        redirect_from(rules, p, i) == redirect_from(rules, p, k),
    decreases k - i,
{
    if i < k {
        lemma_redirect_skips(rules, p, i + 1, k);
    }
}

proof fn lemma_redirect_none_from(rules: Seq<Rule>, p: Seq<char>, i: int)
    requires
        0 <= i <= rules.len(),
        forall|j: int| 0 <= j < rules.len() ==> !path_starts_with(p, #[trigger] rules[j].0),
    ensures
        redirect_from(rules, p, i) is None,
    decreases rules.len() - i,
{
    if i < rules.len() {
        lemma_redirect_none_from(rules, p, i + 1);
    }
}

/// Rewriting a path goes by the first rule, in declaration order, whose
/// original is an ancestor of the path: the result is that rule's
/// redirected base joined with what follows the original in the path.
pub proof fn lemma_first_matching_rule_decides(rules: Seq<Rule>, p: Seq<char>, k: int)
    requires
        0 <= k < rules.len(),
        path_starts_with(p, rules[k].0),
        forall|j: int| 0 <= j < k ==> !path_starts_with(p, #[trigger] rules[j].0),
    ensures
        redirect_path(rules, p) == Some(path_join(rules[k].1, path_remainder(p, rules[k].0))),
{
    lemma_redirect_skips(rules, p, 0, k);
}

/// A path under none of the rules' originals is left as it is.
pub proof fn lemma_unmatched_path_unchanged(rules: Seq<Rule>, p: Seq<char>)
    requires
        forall|j: int| 0 <= j < rules.len() ==> !path_starts_with(p, #[trigger] rules[j].0),
    ensures
        redirect_path(rules, p) is None,
{
    lemma_redirect_none_from(rules, p, 0);
}

fn copy_rule(r: &PathRedirect) -> (c: PathRedirect)
    ensures
        c.original@ == r.original@,
        c.redirected@ == r.redirected@,
{
    PathRedirect { original: r.original.clone(), redirected: r.redirected.clone() }
}

/// The redirect rules of the active plan.
pub struct PlanContext {
    pub redirects: Vec<PathRedirect>,
}

impl PlanContext {
    pub open spec fn rules(&self) -> Seq<Rule> {
        rules_view(self.redirects@)
    }

    /// A context with no rule: every path is left as it is.
    pub fn empty() -> (r: Self)
        ensures
            r.rules() == Seq::<Rule>::empty(),
    {
        let r = PlanContext { redirects: Vec::new() };
        assert(r.rules() =~= Seq::<Rule>::empty());
        r
    }

    /// A copy of the redirect rules of `plan`.
    pub fn from_plan(plan: &HookPlan) -> (r: Self)
        ensures
            r.rules() == rules_view(plan.redirects@),
    {
        let mut out: Vec<PathRedirect> = Vec::new();
        let mut i: usize = 0;
        while i < plan.redirects.len()
            invariant
                i <= plan.redirects@.len(),
                out@.len() == i,
                forall|j: int|
                    0 <= j < i ==> (#[trigger] out@[j]).original@ == plan.redirects@[j].original@
                        && out@[j].redirected@ == plan.redirects@[j].redirected@,
            decreases plan.redirects@.len() - i,
        {
            out.push(copy_rule(&plan.redirects[i]));
            i = i + 1;
        }
        assert(rules_view(out@) =~= rules_view(plan.redirects@));
        PlanContext { redirects: out }
    }

    /// `input` rewritten by the first rule whose original is an ancestor of
    /// it, or `None` when no rule applies.
    pub fn rewrite(&self, input: &str) -> (r: Option<String>)
        ensures
            opt_view(r) == redirect_path(self.rules(), input@),
    {
        let ghost rules = self.rules();
        let mut i: usize = 0;
        while i < self.redirects.len()
            invariant
                i <= self.redirects@.len(),
                rules == rules_view(self.redirects@),
                redirect_path(rules, input@) == redirect_from(rules, input@, i as int),
            decreases self.redirects@.len() - i,
        {
            let rule = &self.redirects[i];
            if starts_with_path(input, rule.original.as_str()) {
                let rest = remainder_after(input, rule.original.as_str());
                return Some(join_path(rule.redirected.as_str(), rest));
            }
            i = i + 1;
        }
        None
    }

    /// What a decoded call argument is rewritten to: nothing for an absent
    /// or empty path, else as [`PlanContext::rewrite`] says.
    pub fn resolve(&self, decoded: Option<&str>) -> (r: Option<String>)
        ensures
            opt_view(r) == match decoded {
                Some(p) => if p@.len() == 0 {
                    None
                } else {
                    redirect_path(self.rules(), p@)
                },
                None => None,
            },
    {
        match decoded {
            Some(p) => {
                if p.unicode_len() == 0 {
                    None
                } else {
                    self.rewrite(p)
                }
            },
            None => None,
        }
    }
}

/// The text that a sequence of UTF-16 code units decodes to, or `None`
/// where the units are not valid UTF-16.
pub uninterp spec fn utf16_decoding(units: Seq<u16>) -> Option<Seq<char>>;

/// The UTF-16 code units of a text.
pub uninterp spec fn utf16_encoding(s: Seq<char>) -> Seq<u16>;

/// No nul character stands before the last character of `s`.
pub open spec fn nul_only_last(s: Seq<char>) -> bool {
    forall|i: int| 0 <= i < s.len() - 1 ==> s[i] != '\0'
}

/// `u` with a nul terminator, added unless `u` already ends with one.
pub open spec fn nul_terminated(u: Seq<u16>) -> Seq<u16> {
    if u.len() > 0 && u.last() == 0 {
        u
    } else {
        u.push(0)
    }
}

/// Relies on `widestring::U16Str::to_string`: decodes the units as UTF-16
/// and fails on invalid data; no units decode to the empty text.
#[verifier::external_body]
fn decode_wide(units: &[u16]) -> (r: Option<String>)
    ensures
        opt_view(r) == utf16_decoding(units@),
        units@.len() == 0 ==> opt_view(r) == Some(Seq::<char>::empty()),
{
    widestring::U16Str::from_slice(units).to_string().ok()
}

/// Relies on `widestring::U16CString::from_str`, which encodes the text as
/// UTF-16 and refuses it when a nul unit stands anywhere but last, and on
/// `into_vec_with_nul`, which hands the units out with their terminator.
#[verifier::external_body]
fn encode_wide(s: &str) -> (r: Option<Vec<u16>>)
    ensures
        r is Some <==> nul_only_last(s@),
        r matches Some(v) ==> v@ == nul_terminated(utf16_encoding(s@)),
{
    match widestring::U16CString::from_str(s) {
        Ok(w) => Some(w.into_vec_with_nul()),
        Err(_) => None,
    }
}

/// What an intercepted file-open call forwards to the real entry point.
pub enum CallTarget {
    /// The caller's own path argument.
    Unchanged,
    /// This nul-terminated wide path instead.
    Redirected(Vec<u16>),
}

pub open spec fn target_view(t: CallTarget) -> Option<Seq<u16>> {
    match t {
        CallTarget::Unchanged => None,
        CallTarget::Redirected(v) => Some(v@),
    }
}

pub open spec fn units_view(name: Option<&[u16]>) -> Option<Seq<u16>> {
    match name {
        Some(u) => Some(u@),
        None => None,
    }
}

/// The wide path that a call with argument `name` (`None` for a null
/// pointer) is forwarded with under `rules`, or `None` where the call goes
/// through unmodified: absent, undecodable or empty argument, no matching
/// rule, or a rewritten path that cannot be encoded.
pub open spec fn routed(rules: Seq<Rule>, name: Option<Seq<u16>>) -> Option<Seq<u16>> {
    match name {
        None => None,
        Some(units) => match utf16_decoding(units) {
            None => None,
            Some(p) => if p.len() == 0 {
                None
            } else {
                match redirect_path(rules, p) {
                    None => None,
                    Some(t) => if nul_only_last(t) {
                        Some(nul_terminated(utf16_encoding(t)))
                    } else {
                        None
                    },
                }
            },
        },
    }
}

impl PlanContext {
    /// The decision for one intercepted call whose path argument holds the
    /// units `name` (without terminator), `None` for a null pointer.
    pub fn dispatch(&self, name: Option<&[u16]>) -> (r: CallTarget)
        ensures
            target_view(r) == routed(self.rules(), units_view(name)),
            name is None ==> r is Unchanged,
            name matches Some(u) && utf16_decoding(u@) is None ==> r is Unchanged,
    {
        let decoded = match name {
            Some(units) => decode_wide(units),
            None => None,
        };
        let rewritten = match &decoded {
            Some(p) => self.resolve(Some(p.as_str())),
            None => self.resolve(None),
        };
        match rewritten {
            Some(t) => match encode_wide(t.as_str()) {
                Some(w) => CallTarget::Redirected(w),
                None => CallTarget::Unchanged,
            },
            None => CallTarget::Unchanged,
        }
    }
}

/// What the host program must do after a plan was applied.
#[derive(Clone, Copy, Debug, PartialEq, Eq)]
pub enum HookAction {
    /// Install and enable the trampoline, then report it installed.
    InstallTrampoline,
    /// Nothing: the trampoline is already in place.
    SwapOnly,
    /// Nothing can be enforced here; the plan was accepted without effect
    /// and the host should say so in its log.
    Unavailable,
}

/// Observable state of a pipeline: whether it enforces plans, whether its
/// trampoline is in place, and the active redirect rules.
pub struct PipelineView {
    pub native: bool,
    pub installed: bool,
    pub rules: Seq<Rule>,
}

/// State after applying a plan with rules `plan_rules`: an enforcing
/// pipeline replaces its rules, a disabled one stays as it was.
pub open spec fn applied(v: PipelineView, plan_rules: Seq<Rule>) -> PipelineView {
    if v.native {
        PipelineView { native: v.native, installed: v.installed, rules: plan_rules }
    } else {
        v
    }
}

/// What applying a plan asks of the host in state `v`.
pub open spec fn apply_action(v: PipelineView) -> HookAction {
    if !v.native {
        HookAction::Unavailable
    } else if v.installed {
        HookAction::SwapOnly
    } else {
        HookAction::InstallTrampoline
    }
}

/// State once the host reports the trampoline in place.
pub open spec fn installed(v: PipelineView) -> PipelineView {
    if v.native {
        PipelineView { native: v.native, installed: true, rules: v.rules }
    } else {
        v
    }
}

/// Enforcing capability: the active rules and whether the trampoline on the
/// file-open entry point is in place.
pub struct DetoursHookManager {
    active: PlanContext,
    hooked: bool,
}

impl DetoursHookManager {
    pub closed spec fn rules(&self) -> Seq<Rule> {
        self.active.rules()
    }

    pub closed spec fn is_installed(&self) -> bool {
        self.hooked
    }

    pub fn new() -> (r: Self)
        ensures
            r.rules() == Seq::<Rule>::empty(),
            !r.is_installed(),
    {
        DetoursHookManager { active: PlanContext::empty(), hooked: false }
    }

    /// Makes the rules of `plan` the active ones, replacing those before;
    /// asks for the trampoline while it is not in place.
    pub fn apply(&mut self, plan: &HookPlan) -> (r: HookAction)
        ensures
            final(self).rules() == rules_view(plan.redirects@),
            final(self).is_installed() == old(self).is_installed(),
            r == (if old(self).is_installed() {
                HookAction::SwapOnly
            } else {
                HookAction::InstallTrampoline
            }),
    {
        self.active = PlanContext::from_plan(plan);
        if self.hooked {
            HookAction::SwapOnly
        } else {
            HookAction::InstallTrampoline
        }
    }

    pub fn mark_installed(&mut self)
        ensures
            final(self).rules() == old(self).rules(),
            final(self).is_installed(),
    {
        self.hooked = true;
    }

    pub fn dispatch(&self, name: Option<&[u16]>) -> (r: CallTarget)
        ensures
            target_view(r) == routed(self.rules(), units_view(name)),
    {
        self.active.dispatch(name)
    }
}

enum PlatformHookManager {
    Native(DetoursHookManager),
    Disabled,
}

/// The process-wide interception pipeline: at most one plan is active at a
/// time, and applying a plan replaces the one before.
pub struct NativeHookPipeline {
    inner: PlatformHookManager,
}

impl View for NativeHookPipeline {
    type V = PipelineView;

    closed spec fn view(&self) -> PipelineView {
        match self.inner {
            PlatformHookManager::Native(m) => PipelineView {
                native: true,
                installed: m.is_installed(),
                rules: m.rules(),
            },
            PlatformHookManager::Disabled => PipelineView {
                native: false,
                installed: false,
                rules: Seq::empty(),
            },
        }
    }
}

impl NativeHookPipeline {
    /// An enforcing pipeline with no active rule and no trampoline yet.
    pub fn new() -> (r: Self)
        ensures
            r@ == (PipelineView { native: true, installed: false, rules: Seq::empty() }),
    {
        NativeHookPipeline { inner: PlatformHookManager::Native(DetoursHookManager::new()) }
    }

    /// A pipeline for a host without native interception: it accepts every
    /// plan and rewrites nothing.
    pub fn disabled() -> (r: Self)
        ensures
            r@ == (PipelineView { native: false, installed: false, rules: Seq::empty() }),
    {
        NativeHookPipeline { inner: PlatformHookManager::Disabled }
    }

    pub fn apply(&mut self, plan: &HookPlan) -> (r: HookAction)
        ensures
            final(self)@ == applied(old(self)@, rules_view(plan.redirects@)),
            r == apply_action(old(self)@),
    {
        match &mut self.inner {
            PlatformHookManager::Native(m) => m.apply(plan),
            PlatformHookManager::Disabled => HookAction::Unavailable,
        }
    }

    /// Records that the host installed and enabled the trampoline.
    pub fn trampoline_installed(&mut self)
        ensures
            final(self)@ == installed(old(self)@),
    {
        match &mut self.inner {
            PlatformHookManager::Native(m) => m.mark_installed(),
            PlatformHookManager::Disabled => {},
        }
    }

    /// The decision for one intercepted call, under the active rules.
    pub fn dispatch(&self, name: Option<&[u16]>) -> (r: CallTarget)
        ensures
            target_view(r) == routed(self@.rules, units_view(name)),
    {
        match &self.inner {
            PlatformHookManager::Native(m) => m.dispatch(name),
            PlatformHookManager::Disabled => CallTarget::Unchanged,
        }
    }
}

/// Applying the same plan twice leaves the pipeline as applying it once,
/// and once the installation the first application asked for is done, a
/// second application changes nothing and asks for nothing more.
pub proof fn lemma_apply_idempotent(v: PipelineView, plan_rules: Seq<Rule>)
    ensures
        applied(applied(v, plan_rules), plan_rules) == applied(v, plan_rules),
        applied(installed(applied(v, plan_rules)), plan_rules) == installed(
            applied(v, plan_rules),
        ),
        apply_action(installed(applied(v, plan_rules))) != HookAction::InstallTrampoline,
{
}

} // verus!
