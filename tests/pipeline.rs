use std::io::Cursor;
use std::sync::Arc;

use image::{DynamicImage, ImageOutputFormat, RgbImage};
use media_store::error::AppError;
use media_store::model::{Image, UploadBuffer};
use media_store::service::ImageService;
use media_store::url::UrlService;

const BASE: &str = "http://localhost:8080";

fn service() -> ImageService<()> {
    ImageService::new((), Arc::new(UrlService::new(BASE.to_string())))
}

fn encode(width: u32, height: u32, format: ImageOutputFormat) -> Vec<u8> {
    let img = DynamicImage::ImageRgb8(RgbImage::new(width, height));
    let mut out = Cursor::new(Vec::new());
    img.write_to(&mut out, format).unwrap();
    out.into_inner()
}

fn png(width: u32, height: u32) -> Vec<u8> {
    encode(width, height, ImageOutputFormat::Png)
}

fn crc32(data: &[u8]) -> u32 {
    let mut crc: u32 = 0xFFFF_FFFF;
    for &b in data {
        crc ^= b as u32;
        for _ in 0..8 {
            let mask = (crc & 1).wrapping_neg();
            crc = (crc >> 1) ^ (0xEDB8_8320 & mask);
        }
    }
    !crc
}

/// A PNG of the given dimensions padded to exactly `total` bytes with an
/// ancillary chunk placed before the closing chunk.
fn png_of_size(width: u32, height: u32, total: usize) -> Vec<u8> {
    let base = png(width, height);
    let iend_at = base.len() - 12;
    let data_len = total - base.len() - 12;
    let mut chunk = Vec::new();
    chunk.extend_from_slice(&(data_len as u32).to_be_bytes());
    let mut body = b"paDd".to_vec();
    body.extend(std::iter::repeat(0u8).take(data_len));
    chunk.extend_from_slice(&body);
    chunk.extend_from_slice(&crc32(&body).to_be_bytes());
    let mut out = base[..iend_at].to_vec();
    out.extend_from_slice(&chunk);
    out.extend_from_slice(&base[iend_at..]);
    out
}

fn upload(bytes: Vec<u8>, mime: &str) -> UploadBuffer {
    UploadBuffer { bytes, mime: mime.to_string() }
}

fn accept(bytes: Vec<u8>, mime: &str) -> Image {
    service().from_part(upload(bytes, mime)).unwrap()
}

#[test]
fn png_upload_reports_codec_dimensions() {
    let bytes = png(100, 50);
    let img = accept(bytes.clone(), "image/png");
    assert_eq!(img.width, 100);
    assert_eq!(img.height, 50);
    assert_eq!(img.mime, "image/png");
    assert_eq!(img.size as usize, bytes.len());
    assert_eq!(img.image, bytes);
    assert_eq!(img.id, 0);
}

#[test]
fn jpeg_upload_reports_codec_dimensions() {
    let bytes = encode(31, 7, ImageOutputFormat::Jpeg(80));
    let img = accept(bytes.clone(), "image/jpeg");
    assert_eq!((img.width, img.height), (31, 7));
    assert_eq!(img.mime, "image/jpeg");
    assert!(img.filename.ends_with(".jpeg"));
    assert_eq!(img.size as usize, bytes.len());
}

#[test]
fn scenario_png_of_five_thousand_bytes() {
    let bytes = png_of_size(100, 50, 5000);
    assert_eq!(bytes.len(), 5000);
    let img = accept(bytes.clone(), "image/png");
    assert_eq!(img.width, 100);
    assert_eq!(img.height, 50);
    assert_eq!(img.mime, "image/png");
    assert_eq!(img.size, 5000);
    assert!(img.filename.ends_with(".png"));
    let suffix = format!("/api/v1/images/{}", img.filename);
    assert!(img.url.ends_with(&suffix));
    assert_eq!(img.url, format!("{}{}", BASE, suffix));
    assert_eq!(img.image, bytes);
}

#[test]
fn filename_is_decimal_hash_and_extension() {
    let img = accept(png(3, 4), "image/png");
    let (hash, ext) = img.filename.split_once('.').unwrap();
    assert_eq!(ext, "png");
    assert!(!hash.is_empty());
    assert!(hash.chars().all(|c| c.is_ascii_digit()));
    assert_eq!(hash.parse::<u64>().unwrap().to_string(), hash);
}

#[test]
fn identical_uploads_get_distinct_filenames() {
    let bytes = png(8, 8);
    let names: Vec<String> = (0..20).map(|_| accept(bytes.clone(), "image/png").filename).collect();
    for i in 0..names.len() {
        for j in (i + 1)..names.len() {
            assert_ne!(names[i], names[j]);
        }
    }
}

#[test]
fn distinct_uploads_keep_their_own_metadata() {
    let a = png(10, 20);
    let b = encode(30, 40, ImageOutputFormat::Jpeg(90));
    let ia = accept(a.clone(), "image/png");
    let ib = accept(b.clone(), "image/jpeg");
    assert_ne!(ia.filename, ib.filename);
    assert_ne!(ia.url, ib.url);
    assert_eq!((ia.width, ia.height, ia.size as usize), (10, 20, a.len()));
    assert_eq!((ib.width, ib.height, ib.size as usize), (30, 40, b.len()));
}

#[test]
fn decodable_gif_mime_is_unsupported() {
    match service().from_part(upload(png(5, 5), "image/gif")) {
        Err(AppError::UnsupportedFormat(m)) => assert_eq!(m, "MIME type image/gif is not supported"),
        other => panic!("unexpected {:?}", other),
    }
}

#[test]
fn undecodable_bytes_with_unsupported_mime_are_unsupported() {
    let r = service().from_part(upload(vec![1, 2, 3], "text/plain"));
    assert!(matches!(r, Err(AppError::UnsupportedFormat(_))));
    let r = service().from_part(upload(Vec::new(), ""));
    assert!(matches!(r, Err(AppError::UnsupportedFormat(_))));
}

#[test]
fn mime_match_is_exact() {
    let r = service().from_part(upload(png(5, 5), "IMAGE/PNG"));
    assert!(matches!(r, Err(AppError::UnsupportedFormat(_))));
    let r = service().from_part(upload(png(5, 5), "image/png "));
    assert!(matches!(r, Err(AppError::UnsupportedFormat(_))));
}

#[test]
fn garbage_with_png_mime_fails_to_decode() {
    let r = service().from_part(upload(b"not an image at all".to_vec(), "image/png"));
    assert!(matches!(r, Err(AppError::DecodeError(_))));
    let r = service().from_part(upload(Vec::new(), "image/jpeg"));
    assert!(matches!(r, Err(AppError::DecodeError(_))));
}

#[test]
fn declared_mime_does_not_decide_the_codec() {
    let img = accept(png(6, 9), "image/jpeg");
    assert_eq!((img.width, img.height), (6, 9));
    assert_eq!(img.mime, "image/jpeg");
    assert!(img.filename.ends_with(".jpeg"));
}

#[test]
fn large_dimensions_are_kept() {
    let img = accept(png(40000, 1), "image/png");
    assert_eq!((img.width, img.height), (40000, 1));
    let img = accept(png(1, 32768), "image/png");
    assert_eq!((img.width, img.height), (1, 32768));
}

#[test]
fn missing_base_address_is_a_config_error() {
    let svc = ImageService::new((), Arc::new(UrlService::new(String::new())));
    let r = svc.from_part(upload(png(2, 2), "image/png"));
    assert!(matches!(r, Err(AppError::ConfigError(_))));
}

#[test]
fn malformed_base_address_is_a_config_error() {
    let svc = ImageService::new((), Arc::new(UrlService::new("localhost:8080".to_string())));
    let r = svc.from_part(upload(png(2, 2), "image/png"));
    assert!(matches!(r, Err(AppError::ConfigError(_))));
}

#[test]
fn base_with_trailing_slash_joins_once() {
    let svc = ImageService::new((), Arc::new(UrlService::new("https://media.example/".to_string())));
    let img = svc.from_part(upload(png(2, 2), "image/png")).unwrap();
    assert_eq!(img.url, format!("https://media.example/api/v1/images/{}", img.filename));
}
