//! Context-creation attribute negotiation.
//!
//! Translates a requested API / version / profile / robustness configuration
//! into the native attribute array — a flat list of signed 32-bit integers,
//! alternating key/value pairs, closed by a single terminator — while
//! respecting what the runtime display actually supports.  The specification
//! models the list as a sequence of key/value pairs plus the terminator, which
//! is also what the well-formedness laws below are stated over.

use vstd::prelude::*;

use crate::display::{Config, Display};
use crate::error::ErrorKind;
use crate::version::Version;

verus! {

// Native attribute keys and values, as the context-creation protocol defines
// them.
pub const CONTEXT_MAJOR_VERSION: i32 = 0x3098;

pub const CONTEXT_MINOR_VERSION: i32 = 0x30FB;

pub const CONTEXT_OPENGL_PROFILE_MASK: i32 = 0x30FD;

pub const CONTEXT_OPENGL_CORE_PROFILE_BIT: i32 = 0x0001;

pub const CONTEXT_OPENGL_COMPATIBILITY_PROFILE_BIT: i32 = 0x0002;

pub const CONTEXT_OPENGL_DEBUG: i32 = 0x31B0;

pub const CONTEXT_OPENGL_ROBUST_ACCESS: i32 = 0x31B2;

pub const CONTEXT_OPENGL_NO_ERROR_KHR: i32 = 0x31B3;

pub const CONTEXT_OPENGL_RESET_NOTIFICATION_STRATEGY: i32 = 0x31BD;

pub const NO_RESET_NOTIFICATION: i32 = 0x31BE;

pub const LOSE_CONTEXT_ON_RESET: i32 = 0x31BF;

pub const CONTEXT_FLAGS_KHR: i32 = 0x30FC;

/// The attribute-list terminator.
pub const ATTRIB_NONE: i32 = 0x3038;

/// The value standing for "true" in an attribute list.
pub const ATTRIB_TRUE: i32 = 1;

/// Client API selector: desktop OpenGL.
pub const OPENGL_API: u32 = 0x30A2;

/// Client API selector: OpenGL ES.
pub const OPENGL_ES_API: u32 = 0x30A0;

/// The sentinel "no context" native handle.
pub const NO_CONTEXT: u64 = 0;

/// The sentinel "no surface" native handle.
pub const NO_SURFACE: u64 = 0;

/// The client API a context is requested for, with an optional exact version.
#[derive(Clone, Copy, Debug)]
pub enum ContextApi {
    OpenGl(Option<Version>),
    Gles(Option<Version>),
}

/// Core or compatibility feature subset, for desktop GL contexts.
#[derive(Clone, Copy, Debug, PartialEq, Eq, Structural)]
pub enum GlProfile {
    Core,
    Compatibility,
}

/// How the context should report and handle GPU reset events.
#[derive(Clone, Copy, Debug, PartialEq, Eq, Structural)]
pub enum Robustness {
    NotRobust,
    NoError,
    RobustNoResetNotification,
    RobustLoseContextOnReset,
}

/// A raw context handle of a known backend family; sharing is only accepted
/// within the same family.
#[derive(Clone, Copy, Debug, PartialEq, Eq, Structural)]
pub enum RawContext {
    Egl(u64),
}

/// A caller-supplied, immutable context request.
#[derive(Clone, Copy, Debug)]
pub struct ContextAttributes {
    pub api: ContextApi,
    pub profile: Option<GlProfile>,
    pub robustness: Robustness,
    pub debug: bool,
    pub shared_context: Option<RawContext>,
}

/// Everything native context creation needs: which API to bind to the thread,
/// the display and config handles, the share handle, and the attribute array.
#[derive(Debug)]
pub struct CreationRequest {
    pub api: u32,
    pub display: u64,
    pub config: u64,
    pub share: u64,
    pub attrs: Vec<i32>,
}

/// One key/value entry of the attribute array.
pub type AttrPair = (i32, i32);

/// The version the request asks for, if any.
pub open spec fn spec_requested_version(api: ContextApi) -> Option<Version> {
    match api {
        ContextApi::OpenGl(v) => v,
        ContextApi::Gles(v) => v,
    }
}

/// Whether the requested API is available on this runtime.
pub open spec fn spec_api_ok(d: Display, a: ContextAttributes) -> bool {
    match a.api {
        ContextApi::OpenGl(_) => d.spec_supports_opengl(),
        ContextApi::Gles(_) => true,
    }
}

/// The native API selector the request resolves to.
pub open spec fn spec_chosen_api(a: ContextAttributes) -> u32 {
    match a.api {
        ContextApi::OpenGl(_) => OPENGL_API,
        ContextApi::Gles(_) => OPENGL_ES_API,
    }
}

/// Whether the requested robustness policy is backed by this runtime.  The
/// policy is only examined at all when extended negotiation is available;
/// without it the whole negotiation block is skipped.
pub open spec fn spec_robustness_ok(d: Display, a: ContextAttributes) -> bool {
    !d.spec_extended_negotiation() || match a.robustness {
        Robustness::NotRobust => true,
        Robustness::NoError => d.spec_has_no_error(),
        Robustness::RobustLoseContextOnReset => d.spec_has_robustness(),
        Robustness::RobustNoResetNotification => d.spec_has_robustness(),
    }
}

/// Whether the request can be satisfied at all (before any native call).
pub open spec fn spec_can_create(d: Display, a: ContextAttributes) -> bool {
    spec_api_ok(d, a) && spec_robustness_ok(d, a)
}

/// The profile-mask value: core unless compatibility was asked for explicitly.
pub open spec fn spec_profile_bit(profile: Option<GlProfile>) -> i32 {
    match profile {
        Some(GlProfile::Compatibility) => CONTEXT_OPENGL_COMPATIBILITY_PROFILE_BIT,
        _ => CONTEXT_OPENGL_CORE_PROFILE_BIT,
    }
}

/// Profile entry: present for desktop GL only.
pub open spec fn spec_profile_pairs(api: u32, profile: Option<GlProfile>) -> Seq<AttrPair> {
    if api == OPENGL_API {
        seq![(CONTEXT_OPENGL_PROFILE_MASK, spec_profile_bit(profile))]
    } else {
        Seq::empty()
    }
}

/// Major/minor entries: present when an exact version was requested.
pub open spec fn spec_version_pairs(v: Option<Version>) -> Seq<AttrPair> {
    match v {
        Some(v) => seq![
            (CONTEXT_MAJOR_VERSION, v.major as i32),
            (CONTEXT_MINOR_VERSION, v.minor as i32),
        ],
        None => Seq::empty(),
    }
}

/// The entry a (supported) robustness policy contributes.
pub open spec fn spec_robustness_pairs(r: Robustness) -> Seq<AttrPair> {
    match r {
        Robustness::NotRobust => Seq::empty(),
        Robustness::NoError => seq![(CONTEXT_OPENGL_NO_ERROR_KHR, ATTRIB_TRUE)],
        Robustness::RobustLoseContextOnReset => seq![
            (CONTEXT_OPENGL_RESET_NOTIFICATION_STRATEGY, LOSE_CONTEXT_ON_RESET),
        ],
        Robustness::RobustNoResetNotification => seq![
            (CONTEXT_OPENGL_RESET_NOTIFICATION_STRATEGY, NO_RESET_NOTIFICATION),
        ],
    }
}

/// The flag bits a robustness policy accumulates.
pub open spec fn spec_robust_flags(r: Robustness) -> i32 {
    match r {
        Robustness::RobustLoseContextOnReset => CONTEXT_OPENGL_ROBUST_ACCESS,
        Robustness::RobustNoResetNotification => CONTEXT_OPENGL_ROBUST_ACCESS,
        _ => 0,
    }
}

/// Debug entry: requested, and the no-error mode is not in use.  Whether the
/// policy was granted is settled before this entry is reached: a no-error
/// request without backing has already been refused.
pub open spec fn spec_debug_pairs(a: ContextAttributes) -> Seq<AttrPair> {
    if a.debug && !(a.robustness matches Robustness::NoError) {
        seq![(CONTEXT_OPENGL_DEBUG, ATTRIB_TRUE)]
    } else {
        Seq::empty()
    }
}

/// Combined flags entry: present when any flag bits were accumulated.
pub open spec fn spec_flags_pairs(r: Robustness) -> Seq<AttrPair> {
    if spec_robust_flags(r) != 0 {
        seq![(CONTEXT_FLAGS_KHR, spec_robust_flags(r))]
    } else {
        Seq::empty()
    }
}

/// All key/value entries of the negotiated list, in emission order.  Without
/// extended negotiation nothing but the terminator is emitted.
pub open spec fn spec_attr_pairs(d: Display, a: ContextAttributes) -> Seq<AttrPair> {
    if d.spec_extended_negotiation() {
        spec_profile_pairs(spec_chosen_api(a), a.profile) + spec_version_pairs(
            spec_requested_version(a.api),
        ) + spec_robustness_pairs(a.robustness) + spec_debug_pairs(a) + spec_flags_pairs(
            a.robustness,
        )
    } else {
        Seq::empty()
    }
}

/// Flattens key/value pairs into the wire layout of the attribute array.
pub open spec fn spec_pairs_flat(ps: Seq<AttrPair>) -> Seq<i32>
    decreases ps.len(),
{
    if ps.len() == 0 {
        Seq::empty()
    } else {
        seq![ps[0].0, ps[0].1] + spec_pairs_flat(ps.drop_first())
    }
}

/// The complete attribute array: the flattened pairs, closed by the
/// terminator.
pub open spec fn spec_attr_list(d: Display, a: ContextAttributes) -> Seq<i32> {
    spec_pairs_flat(spec_attr_pairs(d, a)).push(ATTRIB_NONE)
}

/// The native handle of the context to share object namespaces with.
pub open spec fn spec_shared_handle(a: ContextAttributes) -> u64 {
    match a.shared_context {
        Some(RawContext::Egl(h)) => h,
        None => NO_CONTEXT,
    }
}

pub proof fn lemma_pairs_flat_one(p: AttrPair)
    ensures
        spec_pairs_flat(seq![p]) == seq![p.0, p.1],
{
    assert(seq![p].drop_first() =~= Seq::<AttrPair>::empty());
    assert(seq![p.0, p.1] + spec_pairs_flat(Seq::<AttrPair>::empty()) =~= seq![p.0, p.1]);
}

pub proof fn lemma_pairs_flat_snoc(ps: Seq<AttrPair>, p: AttrPair)
    ensures
        spec_pairs_flat(ps.push(p)) == spec_pairs_flat(ps) + seq![p.0, p.1],
    decreases ps.len(),
{
    if ps.len() == 0 {
        assert(ps.push(p) =~= seq![p]);
        lemma_pairs_flat_one(p);
        assert(spec_pairs_flat(ps) + seq![p.0, p.1] =~= seq![p.0, p.1]);
    } else {
        assert(ps.push(p).drop_first() =~= ps.drop_first().push(p));
        lemma_pairs_flat_snoc(ps.drop_first(), p);
        assert(spec_pairs_flat(ps.push(p)) =~= spec_pairs_flat(ps) + seq![p.0, p.1]);
    }
}

pub proof fn lemma_pairs_flat_len(ps: Seq<AttrPair>)
    ensures
        spec_pairs_flat(ps).len() == 2 * ps.len(),
    decreases ps.len(),
{
    if ps.len() > 0 {
        lemma_pairs_flat_len(ps.drop_first());
    }
}

/// No attribute key occurs twice among the negotiated entries.
pub open spec fn spec_no_dup_keys(ps: Seq<AttrPair>) -> bool {
    forall|i: int, j: int| 0 <= i < j < ps.len() ==> ps[i].0 != ps[j].0
}

/// Every key of `ps` lies in `ks`.
pub open spec fn spec_keys_in(ps: Seq<AttrPair>, ks: Set<i32>) -> bool {
    forall|i: int| 0 <= i < ps.len() ==> ks.contains((#[trigger] ps[i]).0)
}

/// Neither keys nor values of `ps` collide with the terminator.
pub open spec fn spec_no_terminator(ps: Seq<AttrPair>) -> bool {
    forall|i: int|
        0 <= i < ps.len() ==> (#[trigger] ps[i]).0 != ATTRIB_NONE && ps[i].1 != ATTRIB_NONE
}

/// How often `x` occurs in `s`.
pub open spec fn spec_count(s: Seq<i32>, x: i32) -> nat
    decreases s.len(),
{
    if s.len() == 0 {
        0
    } else {
        (if s[0] == x {
            1nat
        } else {
            0nat
        }) + spec_count(s.drop_first(), x)
    }
}

pub proof fn lemma_count_concat(a: Seq<i32>, b: Seq<i32>, x: i32)
    ensures
        spec_count(a + b, x) == spec_count(a, x) + spec_count(b, x),
    decreases a.len(),
{
    if a.len() == 0 {
        assert(a + b =~= b);
    } else {
        assert((a + b).drop_first() =~= a.drop_first() + b);
        lemma_count_concat(a.drop_first(), b, x);
    }
}

pub proof fn lemma_count_one(y: i32, x: i32)
    ensures
        spec_count(seq![y], x) == (if y == x {
            1nat
        } else {
            0nat
        }),
{
    assert(seq![y].drop_first() =~= Seq::<i32>::empty());
    assert(spec_count(Seq::<i32>::empty(), x) == 0);
    assert(seq![y][0] == y);
}

proof fn lemma_flat_no_terminator(ps: Seq<AttrPair>)
    requires
        spec_no_terminator(ps),
    ensures
        spec_count(spec_pairs_flat(ps), ATTRIB_NONE) == 0,
    decreases ps.len(),
{
    if ps.len() == 0 {
    } else {
        let head = seq![ps[0].0, ps[0].1];
        lemma_count_concat(head, spec_pairs_flat(ps.drop_first()), ATTRIB_NONE);
        assert(head.drop_first() =~= seq![ps[0].1]);
        lemma_count_one(ps[0].1, ATTRIB_NONE);
        assert(spec_count(head, ATTRIB_NONE) == 0);
        lemma_flat_no_terminator(ps.drop_first());
    }
}

proof fn lemma_no_dup_concat(a: Seq<AttrPair>, b: Seq<AttrPair>, ka: Set<i32>, kb: Set<i32>)
    requires
        spec_no_dup_keys(a),
        spec_no_dup_keys(b),
        spec_keys_in(a, ka),
        spec_keys_in(b, kb),
        ka.disjoint(kb),
    ensures
        spec_no_dup_keys(a + b),
        spec_keys_in(a + b, ka.union(kb)),
{
    assert forall|i: int, j: int| 0 <= i < j < (a + b).len() implies (a + b)[i].0 != (a
        + b)[j].0 by {
        if j < a.len() {
        } else if i >= a.len() {
            assert(b[i - a.len()].0 != b[j - a.len()].0);
        } else {
            assert(ka.contains(a[i].0));
            assert(kb.contains(b[j - a.len()].0));
        }
    }
    assert forall|i: int| 0 <= i < (a + b).len() implies ka.union(kb).contains(
        (#[trigger] (a + b)[i]).0,
    ) by {
        if i < a.len() {
            assert(ka.contains(a[i].0));
        } else {
            assert(kb.contains(b[i - a.len()].0));
        }
    }
}

proof fn lemma_no_terminator_concat(a: Seq<AttrPair>, b: Seq<AttrPair>)
    requires
        spec_no_terminator(a),
        spec_no_terminator(b),
    ensures
        spec_no_terminator(a + b),
{
    assert forall|i: int| 0 <= i < (a + b).len() implies (#[trigger] (a + b)[i]).0 != ATTRIB_NONE
        && (a + b)[i].1 != ATTRIB_NONE by {
        if i < a.len() {
            assert(a[i].0 != ATTRIB_NONE && a[i].1 != ATTRIB_NONE);
        } else {
            assert(b[i - a.len()].0 != ATTRIB_NONE && b[i - a.len()].1 != ATTRIB_NONE);
        }
    }
}

/// Law: for every runtime (version, extension set) and every request, the
/// negotiated attribute array carries the terminator as its last element and
/// nowhere else, and no key appears twice among its entries.
pub proof fn lemma_attr_list_well_formed(d: Display, a: ContextAttributes)
    ensures
        spec_attr_list(d, a).len() == 2 * spec_attr_pairs(d, a).len() + 1,
        spec_attr_list(d, a).last() == ATTRIB_NONE,
        spec_count(spec_attr_list(d, a), ATTRIB_NONE) == 1,
        spec_no_dup_keys(spec_attr_pairs(d, a)),
{
    let ps = spec_attr_pairs(d, a);
    let flat = spec_pairs_flat(ps);
    lemma_pairs_flat_len(ps);

    if d.spec_extended_negotiation() {
        let api = spec_chosen_api(a);
        let p1 = spec_profile_pairs(api, a.profile);
        let p2 = spec_version_pairs(spec_requested_version(a.api));
        let p3 = spec_robustness_pairs(a.robustness);
        let p4 = spec_debug_pairs(a);
        let p5 = spec_flags_pairs(a.robustness);
        let k1 = set![CONTEXT_OPENGL_PROFILE_MASK];
        let k2 = set![CONTEXT_MAJOR_VERSION, CONTEXT_MINOR_VERSION];
        let k3 = set![CONTEXT_OPENGL_NO_ERROR_KHR, CONTEXT_OPENGL_RESET_NOTIFICATION_STRATEGY];
        let k4 = set![CONTEXT_OPENGL_DEBUG];
        let k5 = set![CONTEXT_FLAGS_KHR];

        assert(spec_keys_in(p1, k1));
        assert(spec_keys_in(p2, k2));
        assert(spec_keys_in(p3, k3));
        assert(spec_keys_in(p4, k4));
        assert(spec_keys_in(p5, k5));
        lemma_no_dup_concat(p1, p2, k1, k2);
        lemma_no_dup_concat(p1 + p2, p3, k1.union(k2), k3);
        lemma_no_dup_concat(p1 + p2 + p3, p4, k1.union(k2).union(k3), k4);
        lemma_no_dup_concat(p1 + p2 + p3 + p4, p5, k1.union(k2).union(k3).union(k4), k5);
        assert(ps == p1 + p2 + p3 + p4 + p5);

        assert(spec_no_terminator(p1));
        assert(spec_no_terminator(p2));
        assert(spec_no_terminator(p3));
        assert(spec_no_terminator(p4));
        assert(spec_no_terminator(p5));
        lemma_no_terminator_concat(p1, p2);
        lemma_no_terminator_concat(p1 + p2, p3);
        lemma_no_terminator_concat(p1 + p2 + p3, p4);
        lemma_no_terminator_concat(p1 + p2 + p3 + p4, p5);
    }
    assert(spec_no_terminator(ps));
    assert(spec_no_dup_keys(ps));

    lemma_flat_no_terminator(ps);
    assert(spec_attr_list(d, a) =~= flat + seq![ATTRIB_NONE]);
    lemma_count_concat(flat, seq![ATTRIB_NONE], ATTRIB_NONE);
    lemma_count_one(ATTRIB_NONE, ATTRIB_NONE);
}

/// Law: a robustness policy the runtime cannot back is refused before any
/// native call, whenever extended negotiation examines it at all.
pub proof fn lemma_unsupported_robustness_refused(d: Display, a: ContextAttributes)
    requires
        d.spec_extended_negotiation(),
        match a.robustness {
            Robustness::NotRobust => false,
            Robustness::NoError => !d.spec_has_no_error(),
            Robustness::RobustLoseContextOnReset => !d.spec_has_robustness(),
            Robustness::RobustNoResetNotification => !d.spec_has_robustness(),
        },
    ensures
        !spec_can_create(d, a),
{
}

/// Law: a desktop OpenGL request against a runtime at or below the desktop-GL
/// threshold is refused, whatever the other attributes say.
pub proof fn lemma_opengl_needs_recent_runtime(d: Display, a: ContextAttributes)
    requires
        !d.spec_supports_opengl(),
        a.api matches ContextApi::OpenGl(_),
    ensures
        !spec_can_create(d, a),
{
}

impl Display {
    /// Negotiates a native creation request from the caller's attributes, or
    /// refuses it before any native call.
    ///
    /// Success is owed exactly when the requested API and robustness policy
    /// are available (`spec_can_create`); every refusal is a `NotSupported`.
    /// On success the attribute array is exactly the negotiated list, and the
    /// request carries this display's handle, the config's handle, and the
    /// resolved share handle.
    #[verifier::rlimit(100)]
    pub fn create_context_request(
        &self,
        config: &Config,
        attributes: &ContextAttributes,
    ) -> (r: Result<CreationRequest, ErrorKind>)
        requires
            config.display_raw == self.raw,
        ensures
            r matches Ok(req) ==> spec_can_create(*self, *attributes) && req.api
                == spec_chosen_api(*attributes) && req.display == self.raw && req.config
                == config.raw && req.share == spec_shared_handle(*attributes) && req.attrs@
                == spec_attr_list(*self, *attributes),
            r matches Err(e) ==> !spec_can_create(*self, *attributes) && e.is_not_supported(),
            r matches Err(e) ==> (!spec_api_ok(*self, *attributes) ==> (e matches
            ErrorKind::NotSupported(m) && m@ == "the requested context Api isn't supported."@)),
            r matches Err(e) ==> (spec_api_ok(*self, *attributes) ==> (e matches
            ErrorKind::NotSupported(m) && m@ == "context robustness is not supported"@)),
    {
        let mut attrs: Vec<i32> = Vec::new();
        let ghost mut pairs: Seq<AttrPair> = Seq::empty();

        let supports_opengl = self.version.above(1, 3);

        let (api, version): (u32, Option<Version>) = match attributes.api {
            ContextApi::OpenGl(v) => {
                if !supports_opengl {
                    return Err(ErrorKind::NotSupported("the requested context Api isn't supported."));
                }
                (OPENGL_API, v)
            },
            ContextApi::Gles(v) => (OPENGL_ES_API, v),
        };
        proof {
            assert(api == spec_chosen_api(*attributes));
            assert(version == spec_requested_version(attributes.api));
        }

        let is_one_five = self.version.at_least(1, 5);
        if is_one_five || self.has_extension("EGL_KHR_create_context") {
            let mut flags: i32 = 0;

            // Profile entry, for the desktop GL API only.
            if api == OPENGL_API {
                let profile_bit: i32 = match attributes.profile {
                    Some(GlProfile::Compatibility) => CONTEXT_OPENGL_COMPATIBILITY_PROFILE_BIT,
                    _ => CONTEXT_OPENGL_CORE_PROFILE_BIT,
                };
                attrs.push(CONTEXT_OPENGL_PROFILE_MASK);
                attrs.push(profile_bit);
                proof {
                    lemma_pairs_flat_snoc(pairs, (CONTEXT_OPENGL_PROFILE_MASK, profile_bit));
                    pairs = pairs.push((CONTEXT_OPENGL_PROFILE_MASK, profile_bit));
                    assert(attrs@ =~= spec_pairs_flat(pairs));
                }
            }
            proof {
                assert(pairs =~= spec_profile_pairs(api, attributes.profile));
            }

            // Exact version entries, when one was requested.
            if let Some(v) = version {
                attrs.push(CONTEXT_MAJOR_VERSION);
                attrs.push(v.major as i32);
                proof {
                    lemma_pairs_flat_snoc(pairs, (CONTEXT_MAJOR_VERSION, v.major as i32));
                    pairs = pairs.push((CONTEXT_MAJOR_VERSION, v.major as i32));
                    assert(attrs@ =~= spec_pairs_flat(pairs));
                }
                attrs.push(CONTEXT_MINOR_VERSION);
                attrs.push(v.minor as i32);
                proof {
                    lemma_pairs_flat_snoc(pairs, (CONTEXT_MINOR_VERSION, v.minor as i32));
                    pairs = pairs.push((CONTEXT_MINOR_VERSION, v.minor as i32));
                    assert(attrs@ =~= spec_pairs_flat(pairs));
                }
            }
            proof {
                assert(pairs =~= spec_profile_pairs(api, attributes.profile) + spec_version_pairs(
                    version,
                ));
            }

            let has_robustness = is_one_five || self.has_extension(
                "EGL_EXT_create_context_robustness",
            );
            let has_no_error = self.has_extension("EGL_KHR_create_context_no_error");

            match attributes.robustness {
                Robustness::NotRobust => (),
                Robustness::NoError => {
                    if !has_no_error {
                        return Err(ErrorKind::NotSupported("context robustness is not supported"));
                    }
                    attrs.push(CONTEXT_OPENGL_NO_ERROR_KHR);
                    attrs.push(ATTRIB_TRUE);
                    proof {
                        lemma_pairs_flat_snoc(pairs, (CONTEXT_OPENGL_NO_ERROR_KHR, ATTRIB_TRUE));
                        pairs = pairs.push((CONTEXT_OPENGL_NO_ERROR_KHR, ATTRIB_TRUE));
                        assert(attrs@ =~= spec_pairs_flat(pairs));
                    }
                },
                Robustness::RobustLoseContextOnReset => {
                    if !has_robustness {
                        return Err(ErrorKind::NotSupported("context robustness is not supported"));
                    }
                    attrs.push(CONTEXT_OPENGL_RESET_NOTIFICATION_STRATEGY);
                    attrs.push(LOSE_CONTEXT_ON_RESET);
                    flags = CONTEXT_OPENGL_ROBUST_ACCESS;
                    proof {
                        lemma_pairs_flat_snoc(
                            pairs,
                            (CONTEXT_OPENGL_RESET_NOTIFICATION_STRATEGY, LOSE_CONTEXT_ON_RESET),
                        );
                        pairs = pairs.push(
                            (CONTEXT_OPENGL_RESET_NOTIFICATION_STRATEGY, LOSE_CONTEXT_ON_RESET),
                        );
                        assert(attrs@ =~= spec_pairs_flat(pairs));
                    }
                },
                Robustness::RobustNoResetNotification => {
                    if !has_robustness {
                        return Err(ErrorKind::NotSupported("context robustness is not supported"));
                    }
                    attrs.push(CONTEXT_OPENGL_RESET_NOTIFICATION_STRATEGY);
                    attrs.push(NO_RESET_NOTIFICATION);
                    flags = CONTEXT_OPENGL_ROBUST_ACCESS;
                    proof {
                        lemma_pairs_flat_snoc(
                            pairs,
                            (CONTEXT_OPENGL_RESET_NOTIFICATION_STRATEGY, NO_RESET_NOTIFICATION),
                        );
                        pairs = pairs.push(
                            (CONTEXT_OPENGL_RESET_NOTIFICATION_STRATEGY, NO_RESET_NOTIFICATION),
                        );
                        assert(attrs@ =~= spec_pairs_flat(pairs));
                    }
                },
            }
            proof {
                assert(pairs =~= spec_profile_pairs(api, attributes.profile) + spec_version_pairs(
                    version,
                ) + spec_robustness_pairs(attributes.robustness));
                assert(flags == spec_robust_flags(attributes.robustness));
            }

            let no_error_active = matches!(attributes.robustness, Robustness::NoError);
            if attributes.debug && !no_error_active {
                attrs.push(CONTEXT_OPENGL_DEBUG);
                attrs.push(ATTRIB_TRUE);
                proof {
                    lemma_pairs_flat_snoc(pairs, (CONTEXT_OPENGL_DEBUG, ATTRIB_TRUE));
                    pairs = pairs.push((CONTEXT_OPENGL_DEBUG, ATTRIB_TRUE));
                    assert(attrs@ =~= spec_pairs_flat(pairs));
                }
            }
            proof {
                assert(pairs =~= spec_profile_pairs(api, attributes.profile) + spec_version_pairs(
                    version,
                ) + spec_robustness_pairs(attributes.robustness) + spec_debug_pairs(*attributes));
            }

            if flags != 0 {
                attrs.push(CONTEXT_FLAGS_KHR);
                attrs.push(flags);
                proof {
                    lemma_pairs_flat_snoc(pairs, (CONTEXT_FLAGS_KHR, flags as i32));
                    pairs = pairs.push((CONTEXT_FLAGS_KHR, flags as i32));
                    assert(attrs@ =~= spec_pairs_flat(pairs));
                }
            }
            proof {
                assert(pairs =~= spec_attr_pairs(*self, *attributes));
            }
        } else {
            proof {
                assert(pairs =~= spec_attr_pairs(*self, *attributes));
            }
        }

        attrs.push(ATTRIB_NONE);
        proof {
            assert(attrs@ =~= spec_attr_list(*self, *attributes));
        }

        let share: u64 = match attributes.shared_context {
            Some(RawContext::Egl(h)) => h,
            None => NO_CONTEXT,
        };

        Ok(CreationRequest { api, display: self.raw, config: config.raw, share, attrs })
    }
}

} // verus!
