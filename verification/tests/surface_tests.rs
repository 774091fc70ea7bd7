use webrender_traits::PixelSize;
use webrender_traits::SurfaceError;
use webrender_traits::SurfaceTarget;
use webrender_traits::WebrenderSurfman;

// The surface manager can only be driven against a real display connection,
// which a build or test machine may not have. When the platform reports no
// connection or no device, there is nothing to drive and the test ends; when
// the manager can be built against a generic (off-screen) target, the
// mode-dependent guarantees are checked end to end.
#[test]
fn generic_target_manager_never_reports_the_widget_misuse_error() {
    let connection = match surfman::Connection::new() {
        Ok(c) => c,
        Err(_) => return,
    };
    let adapter = match connection.create_software_adapter() {
        Ok(a) => a,
        Err(_) => return,
    };
    let attributes = surfman::ContextAttributes {
        version: surfman::GLVersion::new(3, 0),
        flags: surfman::ContextAttributeFlags::empty(),
    };
    let target = SurfaceTarget::Generic { size: PixelSize { width: 100, height: 100 } };
    match WebrenderSurfman::create(&connection, &adapter, attributes, target) {
        Ok(mut manager) => {
            // Off-screen mode: a swap chain is attached, so borrowing it
            // succeeds and neither resize nor present can report the
            // "no attached swap chain" misuse error.
            assert!(manager.swap_chain().is_ok());
            match manager.resize(PixelSize { width: 200, height: 100 }) {
                Ok(()) => (),
                Err(e) => assert!(matches!(e, SurfaceError::Gpu(_))),
            }
            match manager.present() {
                Ok(()) => (),
                Err(e) => assert!(matches!(e, SurfaceError::Gpu(_))),
            }
            // Ordered teardown must not panic even if the platform calls
            // inside it fail.
            manager.destroy();
        },
        Err(e) => assert!(matches!(e, SurfaceError::Gpu(_))),
    }
}
