use draw_dispatch::data_provider::DataProvider;
use draw_dispatch::image::Image;
use draw_dispatch::image::ImageInfo;
use std::sync::{Arc, Mutex};

type Log = Arc<Mutex<Vec<&'static str>>>;

fn new_log() -> Log {
    Arc::new(Mutex::new(Vec::new()))
}

fn entries(log: &Log) -> Vec<&'static str> {
    log.lock().unwrap().clone()
}

/// A buffer that reports when its memory goes.
struct Buffer {
    bytes: Vec<u8>,
    log: Log,
}

impl AsRef<[u8]> for Buffer {
    fn as_ref(&self) -> &[u8] {
        &self.bytes
    }
}

impl Drop for Buffer {
    fn drop(&mut self) {
        self.log.lock().unwrap().push("buffer");
    }
}

/// A native handle that reports when it is released, and how many bytes it
/// was built over.
struct Handle {
    name: &'static str,
    len: usize,
    log: Log,
}

impl Drop for Handle {
    fn drop(&mut self) {
        self.log.lock().unwrap().push(self.name);
    }
}

/// A native handle that keeps a share of the buffer it reads.
struct SharingHandle {
    share: Arc<Buffer>,
    log: Log,
}

impl Drop for SharingHandle {
    fn drop(&mut self) {
        self.log.lock().unwrap().push("provider handle");
    }
}

fn provider(log: &Log, bytes: Vec<u8>) -> DataProvider<Handle, Buffer> {
    let for_handle = log.clone();
    DataProvider::new(Buffer { bytes, log: log.clone() }, move |buffer: &Buffer| Handle {
        name: "provider handle",
        len: buffer.as_ref().len(),
        log: for_handle,
    })
}

fn image(log: &Log, provider: DataProvider<Handle, Buffer>) -> Image<Handle, Handle, Buffer> {
    let for_handle = log.clone();
    let make = move |_info: ImageInfo, _space: &&str, over: &Handle| Handle {
        name: "image handle",
        len: over.len,
        log: for_handle,
    };
    Image::new(2, 2, 8, 32, 8, &"srgb", 1, provider, false, 0, make)
}

#[test]
fn provider_releases_its_handle_before_its_buffer() {
    let log = new_log();
    let p = provider(&log, vec![1, 2, 3]);
    assert_eq!(p.provider().len, 3);
    assert!(entries(&log).is_empty());
    drop(p);
    assert_eq!(entries(&log), vec!["provider handle", "buffer"]);
}

#[test]
fn shared_provider_releases_its_handle_before_its_buffer() {
    let log = new_log();
    let buffer = Arc::new(Buffer { bytes: vec![9; 16], log: log.clone() });
    let for_handle = log.clone();
    let p = DataProvider::from_arc(buffer, move |share: Arc<Buffer>| SharingHandle {
        share,
        log: for_handle,
    });
    assert_eq!(Arc::strong_count(&p.provider().share), 2);
    assert_eq!(p.provider().share.bytes.len(), 16);
    assert!(entries(&log).is_empty());
    drop(p);
    assert_eq!(entries(&log), vec!["provider handle", "buffer"]);
}

#[test]
fn shared_buffer_outlives_the_provider_while_shared_elsewhere() {
    let log = new_log();
    let buffer = Arc::new(Buffer { bytes: vec![0; 4], log: log.clone() });
    let for_handle = log.clone();
    let p = DataProvider::from_arc(buffer.clone(), move |share: Arc<Buffer>| SharingHandle {
        share,
        log: for_handle,
    });
    assert_eq!(Arc::strong_count(&buffer), 3);
    drop(p);
    assert_eq!(entries(&log), vec!["provider handle"]);
    assert_eq!(Arc::strong_count(&buffer), 1);
    drop(buffer);
    assert_eq!(entries(&log), vec!["provider handle", "buffer"]);
}

#[test]
fn explicit_release_lets_the_handle_go_and_keeps_the_buffer() {
    let log = new_log();
    let mut p = provider(&log, vec![5; 8]);
    p.release();
    assert_eq!(entries(&log), vec!["provider handle"]);
    p.release();
    assert_eq!(entries(&log), vec!["provider handle"]);
    drop(p);
    assert_eq!(entries(&log), vec!["provider handle", "buffer"]);
}

#[test]
fn image_tears_down_from_the_image_to_the_buffer() {
    let log = new_log();
    let img = image(&log, provider(&log, vec![0; 16]));
    assert!(entries(&log).is_empty());
    drop(img);
    assert_eq!(entries(&log), vec!["image handle", "provider handle", "buffer"]);
}

#[test]
fn explicit_image_release_leaves_the_provider_whole() {
    let log = new_log();
    let mut img = image(&log, provider(&log, vec![0; 16]));
    img.release();
    assert_eq!(entries(&log), vec!["image handle"]);
    img.release();
    assert_eq!(entries(&log), vec!["image handle"]);
    drop(img);
    assert_eq!(entries(&log), vec!["image handle", "provider handle", "buffer"]);
}

#[test]
fn image_is_built_from_the_values_as_given() {
    let log = new_log();
    let seen: Arc<Mutex<Vec<(ImageInfo, String, usize)>>> = Arc::new(Mutex::new(Vec::new()));
    let record = seen.clone();
    let for_handle = log.clone();
    let img = Image::new(
        640,
        480,
        8,
        32,
        2560,
        &String::from("device rgb"),
        0x2002,
        provider(&log, vec![0; 12]),
        true,
        3,
        move |info: ImageInfo, space: &String, over: &Handle| {
            record.lock().unwrap().push((info, space.clone(), over.len));
            Handle { name: "image handle", len: 0, log: for_handle }
        },
    );
    let expected = ImageInfo {
        width: 640,
        height: 480,
        bits_per_component: 8,
        bits_per_pixel: 32,
        bytes_per_row: 2560,
        bitmap_info: 0x2002,
        should_interpolate: true,
        rendering_intent: 3,
    };
    assert_eq!(*seen.lock().unwrap(), vec![(expected, String::from("device rgb"), 12)]);
    drop(img);
}

#[test]
fn metadata_that_does_not_fit_the_buffer_is_not_refused() {
    let log = new_log();
    let for_handle = log.clone();
    let img = Image::new(
        usize::MAX,
        0,
        0,
        7,
        1,
        &(),
        u32::MAX,
        provider(&log, Vec::new()),
        false,
        u32::MAX,
        move |info: ImageInfo, _space: &(), _over: &Handle| Handle {
            name: "image handle",
            len: info.width,
            log: for_handle,
        },
    );
    drop(img);
    assert_eq!(entries(&log), vec!["image handle", "provider handle", "buffer"]);
}
