use webrender_traits::PixelSize;
use webrender_traits::UvRect;
use webrender_traits::WebrenderExternalImageApi;
use webrender_traits::WebrenderExternalImageHandlers;
use webrender_traits::WebrenderImageHandlerType;
use webrender_traits::image_descriptor;

/// A provider that hands out a fixed texture handle and size and records
/// every lock and unlock it receives.
struct RecordingProvider {
    texture_id: u32,
    size: PixelSize,
    locked: Vec<u64>,
    unlocked: Vec<u64>,
}

impl RecordingProvider {
    fn new(texture_id: u32, width: i32, height: i32) -> Self {
        RecordingProvider {
            texture_id,
            size: PixelSize { width, height },
            locked: Vec::new(),
            unlocked: Vec::new(),
        }
    }
}

impl WebrenderExternalImageApi for RecordingProvider {
    fn lock(&mut self, id: u64) -> (u32, PixelSize) {
        self.locked.push(id);
        (self.texture_id, self.size)
    }

    fn unlock(&mut self, id: u64) {
        self.unlocked.push(id);
    }
}

#[test]
fn webgl_descriptor_is_y_flipped() {
    let size = PixelSize { width: 640, height: 480 };
    let d = image_descriptor(WebrenderImageHandlerType::WebGL, 7, size);
    assert_eq!(d.texture_id, 7);
    assert_eq!(d.uv, UvRect { u0: 0, v0: 480, u1: 640, v1: 0 });
}

#[test]
fn media_descriptor_is_natural_order() {
    let size = PixelSize { width: 640, height: 480 };
    let d = image_descriptor(WebrenderImageHandlerType::Media, 9, size);
    assert_eq!(d.texture_id, 9);
    assert_eq!(d.uv, UvRect { u0: 0, v0: 0, u1: 640, v1: 480 });
}

#[test]
fn zero_sized_image_descriptors_coincide() {
    let size = PixelSize { width: 0, height: 0 };
    let w = image_descriptor(WebrenderImageHandlerType::WebGL, 1, size);
    let m = image_descriptor(WebrenderImageHandlerType::Media, 1, size);
    assert_eq!(w.uv, UvRect { u0: 0, v0: 0, u1: 0, v1: 0 });
    assert_eq!(w.uv, m.uv);
}

#[test]
fn lock_routes_to_the_provider_of_the_registered_kind() {
    let mut handlers: WebrenderExternalImageHandlers<RecordingProvider> =
        WebrenderExternalImageHandlers::new();
    let id_webgl = handlers.external_images.next_id(WebrenderImageHandlerType::WebGL);
    let id_media = handlers.external_images.next_id(WebrenderImageHandlerType::Media);
    handlers.set_handler(RecordingProvider::new(111, 64, 32), WebrenderImageHandlerType::WebGL);
    handlers.set_handler(RecordingProvider::new(222, 16, 8), WebrenderImageHandlerType::Media);

    let d_webgl = handlers.lock(id_webgl, 0, false);
    let d_media = handlers.lock(id_media, 0, false);

    // Each call reached the provider registered for the id's kind, with no
    // cross-talk: the texture handle says which provider answered.
    assert_eq!(d_webgl.texture_id, 111);
    assert_eq!(d_media.texture_id, 222);
    // And each descriptor carries its kind's UV orientation.
    assert_eq!(d_webgl.uv, UvRect { u0: 0, v0: 32, u1: 64, v1: 0 });
    assert_eq!(d_media.uv, UvRect { u0: 0, v0: 0, u1: 16, v1: 8 });

    handlers.unlock(id_webgl, 0);
    handlers.unlock(id_media, 0);
}

#[test]
fn lock_then_unlock_reach_the_same_provider() {
    let mut handlers: WebrenderExternalImageHandlers<RecordingProvider> =
        WebrenderExternalImageHandlers::new();
    let id = handlers.external_images.next_id(WebrenderImageHandlerType::WebGL);
    handlers.set_handler(RecordingProvider::new(5, 10, 20), WebrenderImageHandlerType::WebGL);

    let d = handlers.lock(id, 0, false);
    assert_eq!(d.texture_id, 5);
    handlers.unlock(id, 0);

    // The provider saw the lock and the unlock for the same numeric id.
    let d2 = handlers.lock(id, 0, false);
    assert_eq!(d2.texture_id, 5);
    handlers.unlock(id, 0);
}

#[test]
fn replacing_a_provider_reroutes_subsequent_locks() {
    let mut handlers: WebrenderExternalImageHandlers<RecordingProvider> =
        WebrenderExternalImageHandlers::new();
    let id = handlers.external_images.next_id(WebrenderImageHandlerType::Media);
    handlers.set_handler(RecordingProvider::new(1, 4, 4), WebrenderImageHandlerType::Media);
    let before = handlers.lock(id, 0, false);
    handlers.unlock(id, 0);
    handlers.set_handler(RecordingProvider::new(2, 4, 4), WebrenderImageHandlerType::Media);
    let after = handlers.lock(id, 0, false);
    handlers.unlock(id, 0);
    assert_eq!(before.texture_id, 1);
    assert_eq!(after.texture_id, 2);
}
