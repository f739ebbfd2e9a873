use porkg::check_build_inputs;
use porkg::default_socket_path;
use porkg::default_store_path;
use porkg::is_connection_error;
use porkg::AppError;
use porkg::BuildError;
use porkg::Erro;
use porkg::IntoExitCode;
use porkg::StoreConfig;
use porkg::SupportedHash;

#[test]
fn default_paths() {
    assert_eq!(default_store_path(), "/var/lib/porkg/store");
    assert_eq!(default_socket_path(None), "/var/lib/porkg/porkg.sock");
    assert_eq!(default_socket_path(Some("/run/porkg")), "/run/porkg/porkg.sock");
    assert_eq!(StoreConfig::default().path, "/var/lib/porkg/store");
}

#[test]
fn connection_errors_are_skippable() {
    assert!(is_connection_error(111)); // refused
    assert!(is_connection_error(103)); // aborted
    assert!(is_connection_error(104)); // reset
    assert!(!is_connection_error(2));
}

#[test]
fn build_input_checks_in_order() {
    let hash = SupportedHash::Blake3([7u8; 32]);
    assert_eq!(
        check_build_inputs(false, false, None, None),
        Err(BuildError::SourceDirectoryNotFound)
    );
    assert_eq!(
        check_build_inputs(true, false, None, None),
        Err(BuildError::PorkgTomlNotFound)
    );
    assert_eq!(
        check_build_inputs(true, true, Some((String::from("dep"), hash)), None),
        Err(BuildError::DependencyNotFound {
            name: String::from("dep"),
            hash,
        })
    );
    assert_eq!(
        check_build_inputs(true, true, None, Some((String::from("bdep"), hash))),
        Err(BuildError::BuildDependencyNotFound {
            name: String::from("bdep"),
            hash,
        })
    );
    assert_eq!(check_build_inputs(true, true, None, None), Ok(()));
}

#[test]
fn build_errors_exit_with_one() {
    assert_eq!(BuildError::SourceDirectoryNotFound.report(), 1);
    assert_eq!(BuildError::TokioFailed.report(), 1);
    assert_eq!(Erro.report(), -1);
}

#[test]
fn app_error_wraps() {
    let e = AppError::new(Erro);
    assert_eq!(e.0, Erro);
}
