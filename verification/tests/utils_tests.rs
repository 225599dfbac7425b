use std::io::Cursor;
use candle_core::Device;
use image::{ImageBuffer, ImageFormat, Rgb};
use grpc_vision_svc::device::{
    select_computing_device, DefaultDeviceUtils, DeviceKind, DeviceUtils,
};
use grpc_vision_svc::errors::CaptionError;
use grpc_vision_svc::preprocess::{preprocess, process_image};
use grpc_vision_svc::tensor::create_tensor;

struct NoAcceleratorUtils;

impl DeviceUtils for NoAcceleratorUtils {
    fn cuda_is_available(&self) -> bool {
        false
    }

    fn metal_is_available(&self) -> bool {
        false
    }
}

#[test]
fn test_select_computing_device_cpu_preference() {
    let device: DeviceKind = select_computing_device(true, &DefaultDeviceUtils);
    assert!(device.is_cpu());
}

#[test]
fn test_select_computing_device_no_cpu_preference_no_cuda_no_metal() {
    let device: DeviceKind = select_computing_device(false, &NoAcceleratorUtils);
    assert!(device.is_cpu());
}

fn red_over_black_png(width: u32, height: u32) -> Vec<u8> {
    let input_image: ImageBuffer<Rgb<u16>, Vec<u16>> = ImageBuffer::from_fn(width, height, |_, y| {
        if y < height / 2 {
            Rgb([u16::MAX, 0, 0])
        } else {
            Rgb([0, 0, 0])
        }
    });
    let mut image_bytes: Cursor<Vec<u8>> = Cursor::new(Vec::new());
    input_image.write_to(&mut image_bytes, ImageFormat::Png).unwrap();
    image_bytes.into_inner()
}

#[test]
fn utils_test_process_image_ok() {
    let image_bytes = red_over_black_png(800, 800);
    let image_buf: Vec<u8> = process_image(&image_bytes).unwrap();
    assert_eq!(image_buf.len(), 384 * 384 * 3);
    assert_eq!(image_buf[0], u8::MAX);
}

#[test]
fn utils_test_process_image_invalid_format() {
    let image_bytes: &[u8] = &[0, 1, 2, 3, 4, 5];
    let processing_result = process_image(image_bytes);
    assert!(processing_result.is_err());
    assert!(matches!(
        processing_result.unwrap_err(),
        CaptionError::UnsupportedFormat(_),
    ));
}

#[test]
fn utils_test_process_image_fail_decode() {
    let mut image_bytes: Vec<u8> = vec![137, 80, 78, 71, 13, 10, 26, 10]; // PNG header
    image_bytes.extend_from_slice(&[0; 100]); // Random data
    let processing_result = process_image(&image_bytes);
    assert!(processing_result.is_err());
    assert!(matches!(
        processing_result.unwrap_err(),
        CaptionError::DecodeError(_),
    ));
}

#[test]
fn utils_test_create_tensor_ok() {
    let pixels: Vec<u8> = vec![0; 384 * 384 * 3];
    let tensor = create_tensor(&pixels, &Device::Cpu).unwrap();
    assert_eq!(tensor.shape().dims(), &[3, 384, 384]);
}

#[test]
fn preprocess_returns_fixed_shape_tensor() {
    // Any valid image preprocesses to a tensor of fixed shape [3, 384, 384].
    let image_bytes = red_over_black_png(640, 480);
    let tensor = preprocess(&image_bytes, &Device::Cpu).unwrap();
    assert_eq!(tensor.shape().dims(), &[3, 384, 384]);

    let square = red_over_black_png(100, 100);
    let tensor = preprocess(&square, &Device::Cpu).unwrap();
    assert_eq!(tensor.shape().dims(), &[3, 384, 384]);
}

#[test]
fn preprocess_classifies_bad_payloads() {
    assert!(matches!(
        preprocess(&[1, 2, 3], &Device::Cpu).unwrap_err(),
        CaptionError::UnsupportedFormat(_),
    ));
    let mut truncated: Vec<u8> = vec![137, 80, 78, 71, 13, 10, 26, 10];
    truncated.extend_from_slice(&[0; 16]);
    assert!(matches!(
        preprocess(&truncated, &Device::Cpu).unwrap_err(),
        CaptionError::DecodeError(_),
    ));
}
