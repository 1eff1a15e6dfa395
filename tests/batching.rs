use image_batcher::batch::{Annotation, BatchError, ClassificationBatch, ClassificationBatcher, ImageDatasetItem};
use image_batcher::device::Device;
use image_batcher::normalize::{NormStats, Normalizer, PixelBatch};
use image_batcher::raster::{append_chw, load_and_resize_rgb_u8};

fn encode_png(width: u32, height: u32, pixel: impl Fn(u32, u32) -> [u8; 3]) -> Vec<u8> {
    let img = image::RgbImage::from_fn(width, height, |x, y| image::Rgb(pixel(x, y)));
    let mut bytes = Vec::new();
    img.write_to(&mut std::io::Cursor::new(&mut bytes), image::ImageFormat::Png).unwrap();
    bytes
}

fn item(path: &str, label: usize) -> ImageDatasetItem {
    ImageDatasetItem { image_path: path.to_string(), annotation: Annotation::Label(label) }
}

fn value(batch: &ClassificationBatch, i: usize, c: usize, y: usize, x: usize) -> f64 {
    let n = batch.images.numerators[i * 3072 + c * 1024 + y * 32 + x];
    n as f64 / batch.images.denominators[c] as f64
}

#[test]
fn two_classes_end_to_end() {
    let cat = encode_png(64, 64, |_, _| [200, 10, 10]);
    let dog = encode_png(64, 64, |_, _| [10, 10, 200]);
    let items = vec![item("data/train/cat/a.png", 0), item("data/train/dog/b.png", 1)];
    let batcher = ClassificationBatcher::new(Device::Cpu);
    let batch = batcher.batch(&items, &vec![cat, dog], &Device::Cpu).unwrap();
    assert_eq!(batch.images.dims(), [2, 3, 32, 32]);
    assert_eq!(batch.images.numerators.len(), 2 * 3 * 32 * 32);
    assert_eq!(batch.targets, vec![0, 1]);
    assert_eq!(batch.images_path, vec!["data/train/cat/a.png".to_string(), "data/train/dog/b.png".to_string()]);
    assert_eq!(batch.images.device, Device::Cpu);
    // the red cat and the blue dog stay apart after resizing
    assert!((value(&batch, 0, 0, 5, 5) - (200.0 / 255.0 - 0.4914) / 0.24703).abs() < 0.01);
    assert!(value(&batch, 1, 0, 5, 5) < -1.5);
    assert!((value(&batch, 1, 2, 5, 5) - (200.0 / 255.0 - 0.44653) / 0.26159).abs() < 0.01);
}

#[test]
fn single_item_shape() {
    let bytes = encode_png(10, 7, |x, y| [x as u8, y as u8, 3]);
    let batcher = ClassificationBatcher::new(Device::Gpu(1));
    let batch = batcher.batch(&vec![item("one.png", 4)], &vec![bytes], &Device::Gpu(1)).unwrap();
    assert_eq!(batch.images.dims(), [1, 3, 32, 32]);
    assert_eq!(batch.targets, vec![4]);
    assert_eq!(batch.images_path, vec!["one.png".to_string()]);
}

#[test]
fn empty_batch_is_degenerate() {
    let batcher = ClassificationBatcher::new(Device::Cpu);
    let batch = batcher.batch(&vec![], &vec![], &Device::Cpu).unwrap();
    assert_eq!(batch.images.dims(), [0, 3, 32, 32]);
    assert!(batch.images.numerators.is_empty());
    assert!(batch.targets.is_empty());
    assert!(batch.images_path.is_empty());
}

#[test]
fn order_of_items_is_kept() {
    let paths = ["c.png", "a.png", "b.png"];
    let labels = [2, 0, 1];
    let items: Vec<ImageDatasetItem> = paths.iter().zip(labels).map(|(p, l)| item(p, l)).collect();
    let encoded: Vec<Vec<u8>> = labels.iter().map(|l| encode_png(32, 32, |_, _| [*l as u8 * 100, 0, 0])).collect();
    let batch = ClassificationBatcher::new(Device::Cpu).batch(&items, &encoded, &Device::Cpu).unwrap();
    assert_eq!(batch.targets, vec![2, 0, 1]);
    assert_eq!(batch.images_path, vec!["c.png".to_string(), "a.png".to_string(), "b.png".to_string()]);
    for (i, l) in labels.iter().enumerate() {
        let v = *l as i64 * 100;
        assert_eq!(batch.images.numerators[i * 3072], v * 100000 - 255 * 49140);
    }
}

#[test]
fn pixel_at_channel_mean_normalizes_to_zero() {
    // 51 / 255 is exactly 0.2
    let stats = NormStats { mean: [20000, 20000, 20000], std: [25000, 25000, 25000] };
    let normalizer = Normalizer::from_stats(stats, &Device::Cpu);
    let input = PixelBatch { count: 1, data: vec![51; 3072], device: Device::Cpu };
    let out = normalizer.normalize(&input);
    assert!(out.numerators.iter().all(|n| *n == 0));
    assert_eq!(out.denominators, [255 * 25000, 255 * 25000, 255 * 25000]);
}

#[test]
fn cifar_mean_pixel_is_near_zero() {
    let normalizer = Normalizer::new(&Device::Cpu);
    // channel means 0.4914, 0.48216, 0.44653 are closest to 125, 123, 114
    let mut data = vec![125u8; 1024];
    data.extend(vec![123u8; 1024]);
    data.extend(vec![114u8; 1024]);
    let out = normalizer.normalize(&PixelBatch { count: 1, data, device: Device::Cpu });
    for c in 0..3 {
        let v = out.numerators[c * 1024] as f64 / out.denominators[c] as f64;
        assert!(v.abs() < 0.01, "channel {c}: {v}");
    }
}

#[test]
fn normalize_formula_exact_values() {
    let normalizer = Normalizer::new(&Device::Cpu);
    let mut data = vec![0u8; 3072];
    data[0] = 255;
    data[1024] = 0;
    let out = normalizer.normalize(&PixelBatch { count: 1, data, device: Device::Cpu });
    assert_eq!(out.numerators[0], 255 * 100000 - 255 * 49140);
    assert_eq!(out.numerators[1024], -255 * 48216);
    assert_eq!(out.denominators, [255 * 24703, 255 * 24349, 255 * 26159]);
    let top = out.numerators[0] as f64 / out.denominators[0] as f64;
    assert!((top - (1.0 - 0.4914) / 0.24703).abs() < 1e-9);
}

#[test]
fn image_at_target_size_passes_through() {
    let pixel = |x: u32, y: u32| [(x * 7 + y) as u8, (y * 5) as u8, (x + y * 3) as u8];
    let bytes = encode_png(32, 32, pixel);
    let normalizer = Normalizer::new(&Device::Cpu);
    let batch = ClassificationBatcher::new(Device::Cpu).batch(&vec![item("p.png", 0)], &vec![bytes], &Device::Cpu).unwrap();
    let mean = [49140i64, 48216, 44653];
    for y in 0..32u32 {
        for x in 0..32u32 {
            let p = pixel(x, y);
            for c in 0..3usize {
                let expected = p[c] as i64 * 100000 - 255 * mean[c];
                assert_eq!(batch.images.numerators[c * 1024 + (y as usize) * 32 + x as usize], expected);
            }
        }
    }
    assert_eq!(normalizer.stats.mean, [49140, 48216, 44653]);
}

#[test]
fn relocation_keeps_statistics() {
    let base = Normalizer::new(&Device::Cpu);
    let first = base.to_device(&Device::Gpu(0));
    let second = base.to_device(&Device::Gpu(0));
    assert_eq!(first.stats.mean, second.stats.mean);
    assert_eq!(first.stats.std, second.stats.std);
    assert_eq!(first.device, Device::Gpu(0));
    assert_eq!(base.device, Device::Cpu);
    assert_eq!(base.stats.mean, first.stats.mean);
    let again = first.to_device(&Device::Gpu(0));
    assert_eq!(again.stats.std, first.stats.std);
    let out = base.normalize(&PixelBatch { count: 1, data: vec![9; 3072], device: Device::Cpu });
    assert_eq!(out.device, Device::Cpu);
}

#[test]
fn item_without_label_is_rejected() {
    let good = encode_png(32, 32, |_, _| [1, 2, 3]);
    let items = vec![
        item("a.png", 0),
        ImageDatasetItem { image_path: "b.png".to_string(), annotation: Annotation::MultiLabel(vec![0, 1]) },
    ];
    let r = ClassificationBatcher::new(Device::Cpu).batch(&items, &vec![good.clone(), good], &Device::Cpu);
    assert_eq!(r.err(), Some(BatchError::InvalidTarget { index: 1 }));
}

#[test]
fn labels_are_checked_before_decoding() {
    let items = vec![
        item("a.png", 0),
        ImageDatasetItem { image_path: "b.png".to_string(), annotation: Annotation::SegmentationMask(vec![0; 4]) },
    ];
    let r = ClassificationBatcher::new(Device::Cpu).batch(&items, &vec![vec![1, 2, 3], vec![4, 5]], &Device::Cpu);
    assert_eq!(r.err(), Some(BatchError::InvalidTarget { index: 1 }));
}

#[test]
fn undecodable_image_is_rejected() {
    let good = encode_png(32, 32, |_, _| [1, 2, 3]);
    let items = vec![item("a.png", 0), item("b.png", 1), item("c.png", 1)];
    let r = ClassificationBatcher::new(Device::Cpu).batch(&items, &vec![good, b"not an image".to_vec(), vec![]], &Device::Cpu);
    assert_eq!(r.err(), Some(BatchError::Decode { index: 1 }));
}

#[test]
fn larger_image_is_resized() {
    let bytes = encode_png(64, 48, |_, _| [100, 150, 200]);
    let pixels = load_and_resize_rgb_u8("big.png", &bytes, 32).unwrap();
    assert_eq!(pixels.len(), 32 * 32 * 3);
    for px in pixels.chunks(3) {
        assert!((px[0] as i32 - 100).abs() <= 1);
        assert!((px[1] as i32 - 150).abs() <= 1);
        assert!((px[2] as i32 - 200).abs() <= 1);
    }
}

#[test]
fn garbage_does_not_decode() {
    assert!(load_and_resize_rgb_u8("x.png", b"\x89PNG broken", 32).is_none());
    assert!(load_and_resize_rgb_u8("x.png", &[], 32).is_none());
}

#[test]
fn planes_follow_pixels() {
    let hwc: Vec<u8> = (0..3072usize).map(|i| (i % 251) as u8).collect();
    let mut out = vec![7u8];
    append_chw(&mut out, &hwc);
    assert_eq!(out.len(), 3073);
    assert_eq!(out[0], 7);
    for c in 0..3 {
        for p in 0..1024 {
            assert_eq!(out[1 + c * 1024 + p], hwc[p * 3 + c]);
        }
    }
}

#[test]
fn other_formats_decode() {
    let img = image::RgbImage::from_fn(40, 40, |x, y| image::Rgb([x as u8, y as u8, 9]));
    let formats = [
        ("x.gif", image::ImageFormat::Gif),
        ("x.TIF", image::ImageFormat::Tiff),
        ("x.bmp", image::ImageFormat::Bmp),
        ("x.tga", image::ImageFormat::Tga),
    ];
    for (path, format) in formats {
        let mut bytes = Vec::new();
        img.write_to(&mut std::io::Cursor::new(&mut bytes), format).unwrap();
        let pixels = load_and_resize_rgb_u8(path, &bytes, 32).unwrap();
        assert_eq!(pixels.len(), 3072);
    }
}

#[test]
fn format_follows_the_extension() {
    let png = encode_png(32, 32, |_, _| [1, 2, 3]);
    assert!(load_and_resize_rgb_u8("a.png", &png, 32).is_some());
    assert!(load_and_resize_rgb_u8("a.jpg", &png, 32).is_none());
    assert!(load_and_resize_rgb_u8("a.txt", &png, 32).is_none());
    assert!(load_and_resize_rgb_u8("noextension", &png, 32).is_none());
    let items = vec![item("a.png", 0), item("notes.txt", 1)];
    let r = ClassificationBatcher::new(Device::Cpu).batch(&items, &vec![png.clone(), png], &Device::Cpu);
    assert_eq!(r.err(), Some(BatchError::Decode { index: 1 }));
}
