use yclass_process::error::ProcessError;
use yclass_process::process::{ProcessManager, YClassConfig, DEFAULT_PLUGIN_PATH};

#[test]
fn native_mode_when_no_plugin() {
    let cfg = YClassConfig { plugin_path: None };
    let m = ProcessManager::new(&cfg, false).unwrap();
    assert!(!m.is_extension_mode());
    assert!(!m.is_attached());
}

#[test]
fn configured_missing_plugin_fails() {
    let cfg = YClassConfig {
        plugin_path: Some(String::from("/nowhere/plugin.ycpl")),
    };
    let r = ProcessManager::new(&cfg, false);
    assert!(matches!(r, Err(ProcessError::PluginMissing)));
}

#[test]
fn extension_mode_when_plugin_present() {
    let cfg = YClassConfig {
        plugin_path: Some(String::from("plugin.ycpl")),
    };
    let m = ProcessManager::new(&cfg, true).unwrap();
    assert!(m.is_extension_mode());
    assert!(!m.is_attached());
}

#[test]
fn plugin_target_default_and_configured() {
    let cfg = YClassConfig { plugin_path: None };
    let (path, configured) = cfg.plugin_target();
    assert_eq!(path, DEFAULT_PLUGIN_PATH);
    assert_eq!(path, "plugin.ycpl");
    assert!(!configured);

    let cfg = YClassConfig {
        plugin_path: Some(String::from("custom.ycpl")),
    };
    let (path, configured) = cfg.plugin_target();
    assert_eq!(path, "custom.ycpl");
    assert!(configured);
}

#[test]
fn extension_attach_success() {
    // The module exported all five symbols and its attach entry point
    // returned status zero for pid 1234.
    let cfg = YClassConfig {
        plugin_path: Some(String::from("plugin.ycpl")),
    };
    let mut m = ProcessManager::new(&cfg, true).unwrap();
    assert!(m.attach_extension(1234, 0).is_ok());
    assert!(m.is_attached());
    assert_eq!(m.id(), 1234);
    assert_eq!(m.name().unwrap(), "[MANAGED]");
}

#[test]
fn extension_attach_rejected() {
    let cfg = YClassConfig {
        plugin_path: Some(String::from("plugin.ycpl")),
    };
    let mut m = ProcessManager::new(&cfg, true).unwrap();
    let r = m.attach_extension(42, 7);
    assert_eq!(r, Err(ProcessError::AttachRejected(7)));
    assert!(!m.is_attached());
}

#[test]
fn detach_is_idempotent() {
    let cfg = YClassConfig {
        plugin_path: Some(String::from("plugin.ycpl")),
    };
    let mut m = ProcessManager::new(&cfg, true).unwrap();
    m.attach_extension(5, 0).unwrap();
    assert!(m.is_attached());
    m.detach();
    assert!(!m.is_attached());
    m.detach();
    assert!(!m.is_attached());
}

#[test]
fn reattach_replaces_previous_attachment() {
    let cfg = YClassConfig {
        plugin_path: Some(String::from("plugin.ycpl")),
    };
    let mut m = ProcessManager::new(&cfg, true).unwrap();
    m.attach_extension(1, 0).unwrap();
    assert_eq!(m.id(), 1);
    m.attach_extension(2, 0).unwrap();
    assert!(m.is_attached());
    assert_eq!(m.id(), 2);
}

#[test]
fn rejected_reattach_keeps_previous_attachment() {
    let cfg = YClassConfig {
        plugin_path: Some(String::from("plugin.ycpl")),
    };
    let mut m = ProcessManager::new(&cfg, true).unwrap();
    m.attach_extension(1, 0).unwrap();
    let r = m.attach_extension(2, 9);
    assert_eq!(r, Err(ProcessError::AttachRejected(9)));
    assert!(m.is_attached());
    assert_eq!(m.id(), 1);
}

#[test]
fn extension_read_and_write_outcomes() {
    let cfg = YClassConfig {
        plugin_path: Some(String::from("plugin.ycpl")),
    };
    let mut m = ProcessManager::new(&cfg, true).unwrap();
    m.attach_extension(10, 0).unwrap();
    assert!(m.extension_read_result(0).is_ok());
    assert_eq!(m.extension_read_result(3), Err(ProcessError::ReadFailed));
    assert!(m.extension_write_result(0).is_ok());
    assert_eq!(m.extension_write_result(8), Err(ProcessError::WriteFailed));
}

#[test]
fn native_attach_missing_process_fails() {
    // No process with this id exists, so the operating system refuses the
    // open and the manager stays detached.
    let cfg = YClassConfig { plugin_path: None };
    let mut m = ProcessManager::new(&cfg, false).unwrap();
    let r = m.attach(4_000_000_000);
    assert_eq!(r, Err(ProcessError::ProcessOpen));
    assert!(!m.is_attached());
}

#[test]
fn native_attach_existing_process() {
    // Process id 1 always exists.  Whether this environment lets us inspect
    // it decides which of the contractually allowed outcomes we see.
    let cfg = YClassConfig { plugin_path: None };
    let mut m = ProcessManager::new(&cfg, false).unwrap();
    match m.attach(1) {
        Ok(()) => {
            assert!(m.is_attached());
            assert_eq!(m.id(), 1);
            // The zero page is never mapped, so address 1 is not readable
            // and a read there reports a typed failure without touching the
            // buffer's length.
            assert!(!m.can_read(1));
            let mut buf = vec![0u8; 4];
            assert_eq!(m.read(1, &mut buf), Err(ProcessError::ReadFailed));
            assert_eq!(buf.len(), 4);
            assert_eq!(m.write(1, &vec![1u8]), Err(ProcessError::WriteFailed));
            m.detach();
            assert!(!m.is_attached());
        }
        Err(e) => {
            assert!(e == ProcessError::ProcessOpen || e == ProcessError::RegionQuery);
            assert!(!m.is_attached());
        }
    }
}

#[test]
fn error_descriptions_are_distinct() {
    let errors = vec![
        ProcessError::PluginMissing,
        ProcessError::PluginLoad,
        ProcessError::AttachRejected(1),
        ProcessError::ProcessOpen,
        ProcessError::RegionQuery,
        ProcessError::ReadFailed,
        ProcessError::WriteFailed,
        ProcessError::NameLookup,
    ];
    for (i, a) in errors.iter().enumerate() {
        assert!(!a.describe().is_empty());
        for (j, b) in errors.iter().enumerate() {
            if i != j {
                assert_ne!(a.describe(), b.describe());
            }
        }
    }
}
