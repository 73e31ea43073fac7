use apng::{BitDepth, ColorType, Config, Encoder, FilterType, Frame, PNGImage, APNG};
use std::io::Cursor;

fn rgba_image(seed: u32) -> PNGImage {
    PNGImage {
        width: 7,
        height: 5,
        data: (0..140u32).map(|i| ((i * 31 + seed * 17) % 256) as u8).collect(),
        color_type: ColorType::Rgba,
        bit_depth: BitDepth::Eight,
    }
}

fn decode_frames(bytes: Vec<u8>, frames: usize) -> Vec<Vec<u8>> {
    let decoder = png::Decoder::new(Cursor::new(bytes));
    let mut reader = decoder.read_info().unwrap();
    let control = reader.info().animation_control.unwrap();
    assert_eq!(control.num_frames as usize, frames);
    let mut decoded = Vec::new();
    for _ in 0..frames {
        let mut buf = vec![0; reader.output_buffer_size()];
        let info = reader.next_frame(&mut buf).unwrap();
        assert_eq!((info.width, info.height), (7, 5));
        buf.truncate(info.buffer_size());
        decoded.push(buf);
    }
    decoded
}

#[test]
fn decoder_reads_back_the_frames() {
    let images = vec![rgba_image(1), rgba_image(2), rgba_image(3)];
    let mut apng = APNG { images: images.clone() };
    let config = apng.create_config(2).unwrap();
    let frame = Frame { delay_num: Some(1), delay_den: Some(10), ..Default::default() };
    let bytes = Encoder::new(config).unwrap().encode_all(apng, Some(&frame)).unwrap();
    let decoded = decode_frames(bytes, 3);
    for (image, samples) in images.iter().zip(decoded.iter()) {
        assert_eq!(&image.data, samples);
    }
}

#[test]
fn decoder_reads_back_filtered_frames() {
    for filter in [FilterType::Sub, FilterType::Up, FilterType::Paeth] {
        let images = vec![rgba_image(4), rgba_image(5)];
        let config = Config {
            width: 7,
            height: 5,
            num_frames: 2,
            num_plays: 0,
            color: ColorType::Rgba,
            depth: BitDepth::Eight,
            filter,
        };
        let mut encoder = Encoder::new(config).unwrap();
        for image in &images {
            encoder.write_frame(image, Frame::default()).unwrap();
        }
        let decoded = decode_frames(encoder.finish_encode().unwrap(), 2);
        assert_eq!(decoded[0], images[0].data);
        assert_eq!(decoded[1], images[1].data);
    }
}

#[test]
fn decoder_reads_animation_settings() {
    let mut apng = APNG { images: vec![rgba_image(6), rgba_image(7)] };
    let config = apng.create_config(9).unwrap();
    let bytes = Encoder::new(config).unwrap().encode_all(apng, None).unwrap();
    let reader = png::Decoder::new(Cursor::new(bytes)).read_info().unwrap();
    let info = reader.info();
    assert_eq!((info.width, info.height), (7, 5));
    assert_eq!(info.color_type, png::ColorType::Rgba);
    assert_eq!(info.bit_depth, png::BitDepth::Eight);
    let control = info.animation_control.unwrap();
    assert_eq!((control.num_frames, control.num_plays), (2, 9));
    let first = info.frame_control.unwrap();
    assert_eq!(first.sequence_number, 0);
    assert_eq!((first.width, first.height, first.x_offset, first.y_offset), (7, 5, 0, 0));
    assert_eq!((first.delay_num, first.delay_den), (1, 3));
    assert_eq!(first.dispose_op, png::DisposeOp::None);
    assert_eq!(first.blend_op, png::BlendOp::Source);
}
