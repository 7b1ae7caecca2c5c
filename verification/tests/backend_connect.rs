use input_engine::backend::connect;
use input_engine::errors::EngineError;

#[test]
fn connecting_without_a_display_fails_with_initialization() {
    // This test environment offers no display server or input protocol,
    // so establishing the platform connection must fail, and must fail
    // with the initialization error rather than a panic.
    match connect(0) {
        Err(e) => assert_eq!(e, EngineError::Initialization),
        Ok(_) => panic!("no display server should be reachable here"),
    }
}
