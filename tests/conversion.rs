use heic_native::bridge::{Action, Conversion, Event, Stage, MAX_ARRAY_LEN};
use heic_native::convert_heic_android;
use heic_native::error::{render_result, ConversionError};
use heic_native::format::{select_compress_format, CompressFormat};

fn failed(cause: &str) -> Event {
    Event::Failed { cause: cause.to_string() }
}

/// Starts a conversion and reports `Done` until it waits on `stage`.
fn conversion_at(stage: Stage, mime: &str, quality: u8) -> Conversion {
    let (mut c, _) = Conversion::start(64, mime, quality);
    while c.stage != stage {
        c.advance(Event::Done);
    }
    c
}

fn finish_error(action: Action) -> ConversionError {
    match action {
        Action::Finish { result: Err(e) } => e,
        other => panic!("expected a failure, got {:?}", other),
    }
}

#[test]
fn unsupported_platform_for_any_input() {
    let expected = "Native conversion only available on Android".to_string();
    assert_eq!(convert_heic_android(&[], "", 0), Err(expected.clone()));
    assert_eq!(convert_heic_android(&[1, 2, 3], "image/png", 100), Err(expected.clone()));
    assert_eq!(convert_heic_android(&[0xff; 32], "image/jpeg", 255), Err(expected.clone()));
    assert_eq!(ConversionError::UnsupportedPlatform.message(), expected);
}

#[test]
fn only_exact_png_mime_selects_png() {
    assert_eq!(select_compress_format("image/png"), CompressFormat::Png);
    assert_eq!(select_compress_format("image/jpeg"), CompressFormat::Jpeg);
    assert_eq!(select_compress_format(""), CompressFormat::Jpeg);
    assert_eq!(select_compress_format("garbage"), CompressFormat::Jpeg);
    assert_eq!(select_compress_format("IMAGE/PNG"), CompressFormat::Jpeg);
    assert_eq!(select_compress_format("image/png "), CompressFormat::Jpeg);
    assert_eq!(select_compress_format("image/pn"), CompressFormat::Jpeg);
}

#[test]
fn format_field_names() {
    assert_eq!(CompressFormat::Png.field_name(), "PNG");
    assert_eq!(CompressFormat::Jpeg.field_name(), "JPEG");
}

#[test]
fn successful_jpeg_conversion_asks_for_calls_in_order() {
    let (mut c, first) = Conversion::start(1234, "image/jpeg", 90);
    assert_eq!(first, Action::AttachRuntime);
    assert_eq!(c.advance(Event::Done), Action::CopyInput);
    assert_eq!(c.advance(Event::Done), Action::DecodeByteArray { offset: 0, length: 1234 });
    assert_eq!(c.advance(Event::Done), Action::NewOutputStream);
    assert_eq!(c.advance(Event::Done), Action::LookupFormat { format: CompressFormat::Jpeg });
    assert_eq!(
        c.advance(Event::Done),
        Action::CompressImage { format: CompressFormat::Jpeg, quality: 90 }
    );
    assert_eq!(c.advance(Event::Done), Action::ExtractBytes);
    let out = vec![0xff, 0xd8, 0xff, 0xd9];
    assert_eq!(
        c.advance(Event::Output { bytes: out.clone() }),
        Action::Finish { result: Ok(out) }
    );
    assert_eq!(c.stage, Stage::Finished);
}

#[test]
fn png_request_looks_up_and_compresses_png() {
    let mut c = conversion_at(Stage::Sink, "image/png", 100);
    assert_eq!(c.advance(Event::Done), Action::LookupFormat { format: CompressFormat::Png });
    assert_eq!(
        c.advance(Event::Done),
        Action::CompressImage { format: CompressFormat::Png, quality: 100 }
    );
}

#[test]
fn quality_reaches_compressor_unchanged() {
    for q in [0u8, 1, 50, 99, 100, 101, 255] {
        let mut c = conversion_at(Stage::SelectFormat, "", q);
        assert_eq!(
            c.advance(Event::Done),
            Action::CompressImage { format: CompressFormat::Jpeg, quality: q }
        );
    }
}

#[test]
fn undecodable_input_gives_decode_null() {
    let mut c = conversion_at(Stage::Decode, "image/png", 80);
    let e = finish_error(c.advance(Event::NoImage));
    assert_eq!(e, ConversionError::DecodeNullResult);
    assert_eq!(
        e.message(),
        "BitmapFactory returned null. The HEIC data might be corrupt or unsupported by this Android version."
    );
    assert_eq!(c.stage, Stage::Finished);
    assert!(!c.accepts(&Event::Done));
    assert!(!c.accepts(&failed("late")));
}

#[test]
fn each_fault_maps_to_its_failure() {
    let cases = [
        (Stage::Attach, ConversionError::AttachFailure { cause: "boom".to_string() }, "boom"),
        (
            Stage::Marshal,
            ConversionError::MarshalFailure { cause: "boom".to_string() },
            "Failed to create JArray: boom",
        ),
        (
            Stage::Decode,
            ConversionError::DecodeInvocationFailure { cause: "boom".to_string() },
            "BitmapFactory execution failed: boom",
        ),
        (Stage::Sink, ConversionError::SinkFailure { cause: "boom".to_string() }, "boom"),
        (
            Stage::SelectFormat,
            ConversionError::FormatLookupFailure { cause: "boom".to_string() },
            "boom",
        ),
        (
            Stage::Compress,
            ConversionError::CompressInvocationFailure { cause: "boom".to_string() },
            "Compression call failed: boom",
        ),
        (Stage::Extract, ConversionError::ExtractFailure { cause: "boom".to_string() }, "boom"),
    ];
    for (stage, expected, text) in cases {
        let mut c = conversion_at(stage, "image/jpeg", 70);
        let e = finish_error(c.advance(failed("boom")));
        assert_eq!(e.message(), text);
        assert_eq!(e, expected);
        assert_eq!(c.stage, Stage::Finished);
    }
}

#[test]
fn compress_returning_false_is_distinct_from_fault() {
    let mut c = conversion_at(Stage::Compress, "image/png", 50);
    let e = finish_error(c.advance(Event::Declined));
    assert_eq!(e, ConversionError::CompressFalseResult);
    assert_eq!(e.message(), "Android Bitmap.compress returned false");
}

#[test]
fn oversized_input_fails_before_copy() {
    let (mut c, _) = Conversion::start(MAX_ARRAY_LEN + 1, "image/png", 50);
    let e = finish_error(c.advance(Event::Done));
    assert_eq!(e, ConversionError::InputTooLarge);
    assert_eq!(
        e.message(),
        "Failed to create JArray: input exceeds the largest byte array of the platform runtime"
    );
    let (mut d, _) = Conversion::start(MAX_ARRAY_LEN, "image/png", 50);
    assert_eq!(d.advance(Event::Done), Action::CopyInput);
    assert_eq!(
        d.advance(Event::Done),
        Action::DecodeByteArray { offset: 0, length: i32::MAX }
    );
}

#[test]
fn events_accepted_per_stage() {
    let (c, _) = Conversion::start(0, "", 0);
    assert!(c.accepts(&Event::Done));
    assert!(c.accepts(&failed("x")));
    assert!(!c.accepts(&Event::NoImage));
    assert!(!c.accepts(&Event::Declined));
    assert!(!c.accepts(&Event::Output { bytes: vec![] }));
    let d = conversion_at(Stage::Decode, "", 0);
    assert!(d.accepts(&Event::NoImage));
    assert!(!d.accepts(&Event::Declined));
    let k = conversion_at(Stage::Compress, "", 0);
    assert!(k.accepts(&Event::Declined));
    assert!(!k.accepts(&Event::NoImage));
    let x = conversion_at(Stage::Extract, "", 0);
    assert!(!x.accepts(&Event::Done));
    assert!(x.accepts(&Event::Output { bytes: vec![1] }));
}

#[test]
fn independent_conversions_do_not_interfere() {
    let (mut a, _) = Conversion::start(10, "image/png", 10);
    let (mut b, _) = Conversion::start(20, "image/jpeg", 20);
    a.advance(Event::Done);
    a.advance(Event::Done);
    assert_eq!(b.stage, Stage::Attach);
    assert_eq!(b.advance(Event::Done), Action::CopyInput);
    assert_eq!(b.advance(Event::Done), Action::DecodeByteArray { offset: 0, length: 20 });
    assert_eq!(a.advance(Event::Done), Action::NewOutputStream);
}

#[test]
fn rendered_results() {
    assert_eq!(render_result(Ok(vec![1, 2])), Ok(vec![1, 2]));
    assert_eq!(
        render_result(Err(ConversionError::MarshalFailure { cause: "oom".to_string() })),
        Err("Failed to create JArray: oom".to_string())
    );
    assert_eq!(
        render_result(Err(ConversionError::CompressFalseResult)),
        Err("Android Bitmap.compress returned false".to_string())
    );
}
