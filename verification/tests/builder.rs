use winch_stack::builder::{check_tunables, BuilderError, BuilderSettings, Tunables};

fn supported() -> Tunables {
    Tunables {
        winch_callable: true,
        table_lazy_init: true,
        signals_based_traps: true,
        generate_native_debuginfo: false,
    }
}

#[test]
fn supported_tunables_pass() {
    assert_eq!(Ok(()), check_tunables(&supported()));
}

#[test]
fn each_unsupported_tunable_is_reported() {
    let t = Tunables { winch_callable: false, ..supported() };
    assert_eq!(Err(BuilderError::WinchCallingConvention), check_tunables(&t));
    let t = Tunables { table_lazy_init: false, ..supported() };
    assert_eq!(Err(BuilderError::TableLazyInit), check_tunables(&t));
    let t = Tunables { signals_based_traps: false, ..supported() };
    assert_eq!(Err(BuilderError::SignalsBasedTraps), check_tunables(&t));
    let t = Tunables { generate_native_debuginfo: true, ..supported() };
    assert_eq!(Err(BuilderError::NativeDebugInfo), check_tunables(&t));
}

#[test]
fn first_broken_rule_wins() {
    let t = Tunables {
        winch_callable: false,
        table_lazy_init: false,
        signals_based_traps: false,
        generate_native_debuginfo: true,
    };
    assert_eq!(Err(BuilderError::WinchCallingConvention), check_tunables(&t));
    let t = Tunables { winch_callable: true, ..t };
    assert_eq!(Err(BuilderError::TableLazyInit), check_tunables(&t));
}

#[test]
fn settings_keep_accepted_tunables_only() {
    let mut settings = BuilderSettings::<u32>::new();
    assert_eq!(None, settings.tunables);
    let bad = Tunables { signals_based_traps: false, ..supported() };
    let mut passed_on = false;
    assert_eq!(
        Err(BuilderError::SignalsBasedTraps),
        settings.set_tunables(bad, |_| {
            passed_on = true;
            Ok(())
        })
    );
    assert!(!passed_on);
    assert_eq!(None, settings.tunables);
    assert_eq!(Ok(()), settings.set_tunables(supported(), |t| {
        assert_eq!(supported(), t);
        Ok(())
    }));
    assert_eq!(supported(), settings.tunables_for_build());
    let debuginfo = Tunables { generate_native_debuginfo: true, ..supported() };
    assert_eq!(Err(BuilderError::NativeDebugInfo), settings.set_tunables(debuginfo, |_| Ok(())));
    assert_eq!(supported(), settings.tunables_for_build());
}

#[test]
fn backend_refusal_is_reported_after_storing() {
    let mut settings = BuilderSettings::<u32>::new();
    let r = settings.set_tunables(supported(), |_| Err("no".to_string()));
    assert_eq!(Err(BuilderError::Backend("no".to_string())), r);
    assert_eq!("no", r.unwrap_err().message());
    assert_eq!(Some(supported()), settings.tunables);
}

#[test]
fn restore_info_is_kept() {
    let mut settings = BuilderSettings::<u32>::new();
    assert_eq!(None, settings.restore_info);
    assert_eq!(Ok(()), settings.set_restore_info(7));
    assert_eq!(Some(7), settings.restore_info);
    assert_eq!(None, settings.tunables);
}

#[test]
fn incremental_compilation_is_refused() {
    let mut settings = BuilderSettings::<u32>::new();
    assert_eq!(Err(BuilderError::IncrementalCompilation), settings.enable_incremental_compilation());
    assert_eq!(None, settings.tunables);
}

#[test]
fn builder_messages() {
    assert_eq!("Winch requires the winch calling convention", BuilderError::WinchCallingConvention.message());
    assert_eq!("Winch requires the table-lazy-init option to be enabled", BuilderError::TableLazyInit.message());
    assert_eq!("Winch requires the signals-based-traps option to be enabled", BuilderError::SignalsBasedTraps.message());
    assert_eq!("Winch does not currently support generating native debug information", BuilderError::NativeDebugInfo.message());
    assert_eq!("incremental compilation is not supported on this platform", BuilderError::IncrementalCompilation.message());
}
