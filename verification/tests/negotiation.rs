use glutin::attrs::{
    ContextApi, ContextAttributes, GlProfile, RawContext, Robustness, ATTRIB_NONE, ATTRIB_TRUE,
    CONTEXT_FLAGS_KHR, CONTEXT_MAJOR_VERSION, CONTEXT_MINOR_VERSION, CONTEXT_OPENGL_COMPATIBILITY_PROFILE_BIT,
    CONTEXT_OPENGL_CORE_PROFILE_BIT, CONTEXT_OPENGL_DEBUG, CONTEXT_OPENGL_NO_ERROR_KHR,
    CONTEXT_OPENGL_PROFILE_MASK, CONTEXT_OPENGL_RESET_NOTIFICATION_STRATEGY, CONTEXT_OPENGL_ROBUST_ACCESS,
    LOSE_CONTEXT_ON_RESET, NO_CONTEXT, NO_RESET_NOTIFICATION, OPENGL_API, OPENGL_ES_API,
};
use glutin::display::{Config, Display};
use glutin::error::ErrorKind;
use glutin::version::Version;

fn display_with(major: u8, minor: u8, extensions: &[&str]) -> Display {
    let exts: Vec<String> = extensions.iter().map(|e| e.to_string()).collect();
    Display::new(0x11, Version::new(major, minor), exts)
}

fn config_of(d: &Display) -> Config {
    Config { raw: 0x22, display_raw: d.raw }
}

fn base_request() -> ContextAttributes {
    ContextAttributes {
        api: ContextApi::Gles(None),
        profile: None,
        robustness: Robustness::NotRobust,
        debug: false,
        shared_context: None,
    }
}

#[test]
fn scenario_lose_context_on_reset() {
    // Runtime 1.4 with the create-context and robustness extensions but not
    // the no-error extension; OpenGL 4.1, core profile, robustness
    // lose-context-on-reset, debug requested.  The array holds profile,
    // version, reset strategy, debug, flags, and the terminator: 13 integers.
    let d = display_with(1, 4, &["EGL_KHR_create_context", "EGL_EXT_create_context_robustness"]);
    let c = config_of(&d);
    let a = ContextAttributes {
        api: ContextApi::OpenGl(Some(Version::new(4, 1))),
        profile: Some(GlProfile::Core),
        robustness: Robustness::RobustLoseContextOnReset,
        debug: true,
        shared_context: None,
    };
    let req = d.create_context_request(&c, &a).unwrap();
    assert_eq!(req.api, OPENGL_API);
    assert_eq!(req.display, d.raw);
    assert_eq!(req.config, c.raw);
    assert_eq!(req.share, NO_CONTEXT);
    assert_eq!(
        req.attrs,
        vec![
            CONTEXT_OPENGL_PROFILE_MASK,
            CONTEXT_OPENGL_CORE_PROFILE_BIT,
            CONTEXT_MAJOR_VERSION,
            4,
            CONTEXT_MINOR_VERSION,
            1,
            CONTEXT_OPENGL_RESET_NOTIFICATION_STRATEGY,
            LOSE_CONTEXT_ON_RESET,
            CONTEXT_OPENGL_DEBUG,
            ATTRIB_TRUE,
            CONTEXT_FLAGS_KHR,
            CONTEXT_OPENGL_ROBUST_ACCESS,
            ATTRIB_NONE,
        ]
    );
    assert_eq!(req.attrs.len(), 13);
}

#[test]
fn scenario_no_error_refused_without_extension() {
    // Same runtime as above, but robustness = no-error: the no-error
    // extension is absent, so the request is refused before any native call.
    let d = display_with(1, 4, &["EGL_KHR_create_context", "EGL_EXT_create_context_robustness"]);
    let c = config_of(&d);
    let a = ContextAttributes {
        api: ContextApi::OpenGl(Some(Version::new(4, 1))),
        profile: Some(GlProfile::Core),
        robustness: Robustness::NoError,
        debug: true,
        shared_context: None,
    };
    let r = d.create_context_request(&c, &a);
    assert!(matches!(r, Err(ErrorKind::NotSupported(_))));
}

#[test]
fn debug_emitted_under_native_negotiation() {
    // At runtime 1.5 extended negotiation is native, with no extension
    // needed: the lose-context request emits the same 13 integers.
    let d = display_with(1, 5, &[]);
    let c = config_of(&d);
    let a = ContextAttributes {
        api: ContextApi::OpenGl(Some(Version::new(4, 1))),
        profile: Some(GlProfile::Core),
        robustness: Robustness::RobustLoseContextOnReset,
        debug: true,
        shared_context: None,
    };
    let req = d.create_context_request(&c, &a).unwrap();
    assert_eq!(
        req.attrs,
        vec![
            CONTEXT_OPENGL_PROFILE_MASK,
            CONTEXT_OPENGL_CORE_PROFILE_BIT,
            CONTEXT_MAJOR_VERSION,
            4,
            CONTEXT_MINOR_VERSION,
            1,
            CONTEXT_OPENGL_RESET_NOTIFICATION_STRATEGY,
            LOSE_CONTEXT_ON_RESET,
            CONTEXT_OPENGL_DEBUG,
            ATTRIB_TRUE,
            CONTEXT_FLAGS_KHR,
            CONTEXT_OPENGL_ROBUST_ACCESS,
            ATTRIB_NONE,
        ]
    );
    assert_eq!(req.attrs.len(), 13);
}

#[test]
fn opengl_refused_at_or_below_threshold() {
    // Desktop GL needs a runtime above 1.3, whatever else is asked.
    let d = display_with(1, 3, &["EGL_KHR_create_context"]);
    let c = config_of(&d);
    let mut a = base_request();
    a.api = ContextApi::OpenGl(None);
    assert!(matches!(d.create_context_request(&c, &a), Err(ErrorKind::NotSupported(_))));

    let mut b = base_request();
    b.api = ContextApi::OpenGl(Some(Version::new(4, 6)));
    b.debug = true;
    b.profile = Some(GlProfile::Compatibility);
    assert!(matches!(d.create_context_request(&c, &b), Err(ErrorKind::NotSupported(_))));
}

#[test]
fn opengl_accepted_just_above_threshold() {
    let d = display_with(1, 4, &[]);
    let c = config_of(&d);
    let mut a = base_request();
    a.api = ContextApi::OpenGl(None);
    let req = d.create_context_request(&c, &a).unwrap();
    assert_eq!(req.api, OPENGL_API);
    // No extended negotiation at 1.4 without the create-context extension:
    // only the terminator is emitted.
    assert_eq!(req.attrs, vec![ATTRIB_NONE]);
}

#[test]
fn terminator_only_without_negotiation() {
    let d = display_with(1, 2, &[]);
    let c = config_of(&d);
    let a = base_request();
    let req = d.create_context_request(&c, &a).unwrap();
    assert_eq!(req.api, OPENGL_ES_API);
    assert_eq!(req.attrs, vec![ATTRIB_NONE]);
}

#[test]
fn robustness_skipped_without_negotiation() {
    // Without extended negotiation the robustness policy is never examined:
    // even a policy the runtime cannot back succeeds, with a bare terminator.
    let d = display_with(1, 2, &[]);
    let c = config_of(&d);
    let mut a = base_request();
    a.robustness = Robustness::NoError;
    let req = d.create_context_request(&c, &a).unwrap();
    assert_eq!(req.attrs, vec![ATTRIB_NONE]);
}

#[test]
fn robustness_refused_without_support() {
    let d = display_with(1, 4, &["EGL_KHR_create_context"]);
    let c = config_of(&d);
    let mut a = base_request();
    a.robustness = Robustness::RobustLoseContextOnReset;
    assert!(matches!(d.create_context_request(&c, &a), Err(ErrorKind::NotSupported(_))));
    a.robustness = Robustness::RobustNoResetNotification;
    assert!(matches!(d.create_context_request(&c, &a), Err(ErrorKind::NotSupported(_))));
    a.robustness = Robustness::NoError;
    assert!(matches!(d.create_context_request(&c, &a), Err(ErrorKind::NotSupported(_))));
}

#[test]
fn no_reset_notification_strategy_value() {
    let d = display_with(1, 5, &[]);
    let c = config_of(&d);
    let mut a = base_request();
    a.robustness = Robustness::RobustNoResetNotification;
    let req = d.create_context_request(&c, &a).unwrap();
    assert_eq!(
        req.attrs,
        vec![
            CONTEXT_OPENGL_RESET_NOTIFICATION_STRATEGY,
            NO_RESET_NOTIFICATION,
            CONTEXT_FLAGS_KHR,
            CONTEXT_OPENGL_ROBUST_ACCESS,
            ATTRIB_NONE,
        ]
    );
}

#[test]
fn no_error_accepted_with_extension() {
    let d = display_with(1, 5, &["EGL_KHR_create_context_no_error"]);
    let c = config_of(&d);
    let mut a = base_request();
    a.robustness = Robustness::NoError;
    a.debug = true;
    let req = d.create_context_request(&c, &a).unwrap();
    // The no-error entry is emitted; debug is suppressed while the no-error
    // mode is active, and no flag bits accumulate.
    assert_eq!(req.attrs, vec![CONTEXT_OPENGL_NO_ERROR_KHR, ATTRIB_TRUE, ATTRIB_NONE]);
}

#[test]
fn debug_emitted_despite_no_error_extension() {
    // Advertising the no-error extension does not by itself suppress debug:
    // only the no-error mode in use does.
    let d = display_with(1, 5, &["EGL_KHR_create_context_no_error"]);
    let c = config_of(&d);
    let mut a = base_request();
    a.debug = true;
    let req = d.create_context_request(&c, &a).unwrap();
    assert_eq!(req.attrs, vec![CONTEXT_OPENGL_DEBUG, ATTRIB_TRUE, ATTRIB_NONE]);
}

#[test]
fn compatibility_profile_bit() {
    let d = display_with(1, 5, &[]);
    let c = config_of(&d);
    let mut a = base_request();
    a.api = ContextApi::OpenGl(None);
    a.profile = Some(GlProfile::Compatibility);
    let req = d.create_context_request(&c, &a).unwrap();
    assert_eq!(
        req.attrs,
        vec![CONTEXT_OPENGL_PROFILE_MASK, CONTEXT_OPENGL_COMPATIBILITY_PROFILE_BIT, ATTRIB_NONE]
    );
}

#[test]
fn gles_gets_no_profile_entry() {
    let d = display_with(1, 5, &[]);
    let c = config_of(&d);
    let mut a = base_request();
    a.api = ContextApi::Gles(Some(Version::new(3, 2)));
    a.profile = Some(GlProfile::Core);
    let req = d.create_context_request(&c, &a).unwrap();
    assert_eq!(req.attrs, vec![CONTEXT_MAJOR_VERSION, 3, CONTEXT_MINOR_VERSION, 2, ATTRIB_NONE]);
}

#[test]
fn shared_context_handle_is_resolved() {
    let d = display_with(1, 5, &[]);
    let c = config_of(&d);
    let mut a = base_request();
    a.shared_context = Some(RawContext::Egl(0xABCD));
    let req = d.create_context_request(&c, &a).unwrap();
    assert_eq!(req.share, 0xABCD);
}

#[test]
fn extension_queries() {
    let d = display_with(1, 4, &["EGL_KHR_create_context", "EGL_EXT_create_context_robustness"]);
    assert!(d.has_extension("EGL_KHR_create_context"));
    assert!(d.has_extension("EGL_EXT_create_context_robustness"));
    assert!(!d.has_extension("EGL_KHR_create_context_no_error"));
    assert!(!d.has_extension(""));
}

#[test]
fn native_code_accessor() {
    let e = ErrorKind::NativeFailure(0x3001);
    assert_eq!(e.native_code(), Some(0x3001));
    let n = ErrorKind::NotSupported("nope");
    assert_eq!(n.native_code(), None);
}

#[test]
fn attribute_lists_are_well_formed() {
    // Across a sweep of runtimes and requests, every generated array ends
    // with exactly one terminator and repeats no key.
    let ext_sets: Vec<Vec<&str>> = vec![
        vec![],
        vec!["EGL_KHR_create_context"],
        vec!["EGL_KHR_create_context", "EGL_EXT_create_context_robustness"],
        vec!["EGL_KHR_create_context_no_error"],
        vec![
            "EGL_KHR_create_context",
            "EGL_EXT_create_context_robustness",
            "EGL_KHR_create_context_no_error",
        ],
    ];
    let versions = [(1u8, 2u8), (1, 4), (1, 5)];
    let apis = [
        ContextApi::OpenGl(None),
        ContextApi::OpenGl(Some(Version::new(4, 1))),
        ContextApi::Gles(None),
        ContextApi::Gles(Some(Version::new(3, 0))),
    ];
    let policies = [
        Robustness::NotRobust,
        Robustness::NoError,
        Robustness::RobustLoseContextOnReset,
        Robustness::RobustNoResetNotification,
    ];
    for (major, minor) in versions {
        for exts in &ext_sets {
            let d = display_with(major, minor, exts);
            let c = config_of(&d);
            for api in apis {
                for robustness in policies {
                    for debug in [false, true] {
                        let a = ContextAttributes {
                            api,
                            profile: Some(GlProfile::Core),
                            robustness,
                            debug,
                            shared_context: None,
                        };
                        if let Ok(req) = d.create_context_request(&c, &a) {
                            let attrs = &req.attrs;
                            assert_eq!(*attrs.last().unwrap(), ATTRIB_NONE);
                            let terminators =
                                attrs.iter().filter(|&&v| v == ATTRIB_NONE).count();
                            assert_eq!(terminators, 1);
                            assert_eq!(attrs.len() % 2, 1);
                            let keys: Vec<i32> =
                                attrs[..attrs.len() - 1].iter().step_by(2).copied().collect();
                            for (i, k) in keys.iter().enumerate() {
                                for k2 in &keys[i + 1..] {
                                    assert_ne!(k, k2);
                                }
                            }
                        }
                    }
                }
            }
        }
    }
}
