use encoder_lib::config::Defaults;
use encoder_lib::error::EncoderError;
use encoder_lib::find_template;
use encoder_lib::metadata::parse_frame_rate;
use encoder_lib::metadata::VideoMetadata;
use encoder_lib::numstr::parse_duration_us;
use encoder_lib::numstr::parse_u32;
use encoder_lib::numstr::u64_to_string;
use encoder_lib::slate::SlateData;

#[test]
fn frame_rate_fraction_forms() {
    assert_eq!(parse_frame_rate("30000/1001").unwrap(), (30000, 1001));
    assert_eq!(parse_frame_rate("25/1").unwrap(), (25, 1));
    assert_eq!(parse_frame_rate("30/1").unwrap(), (30, 1));
}

#[test]
fn frame_rate_decimal_rounds() {
    assert_eq!(parse_frame_rate("29.97").unwrap(), (30, 1));
    assert_eq!(parse_frame_rate("25").unwrap(), (25, 1));
    assert_eq!(parse_frame_rate("23.4").unwrap(), (23, 1));
    assert_eq!(parse_frame_rate("23.5").unwrap(), (24, 1));
}

#[test]
fn frame_rate_errors_name_the_side() {
    let e = parse_frame_rate("abc/1001").unwrap_err();
    assert_eq!(
        e.message(),
        "Erro ao ler metadados do vídeo: Frame rate inválido (num)"
    );
    let e = parse_frame_rate("30000/xyz").unwrap_err();
    assert_eq!(
        e.message(),
        "Erro ao ler metadados do vídeo: Frame rate inválido (den)"
    );
    let e = parse_frame_rate("fast").unwrap_err();
    assert_eq!(e.message(), "Erro ao ler metadados do vídeo: Frame rate inválido");
}

#[test]
fn duration_parse_microseconds() {
    assert_eq!(parse_duration_us("60"), Some(60_000_000));
    assert_eq!(parse_duration_us("59.9995"), Some(59_999_500));
    assert_eq!(parse_duration_us("12."), Some(12_000_000));
    assert_eq!(parse_duration_us(".5"), Some(500_000));
    // the seventh fractional digit rounds half up
    assert_eq!(parse_duration_us("1.0000004"), Some(1_000_000));
    assert_eq!(parse_duration_us("1.0000005"), Some(1_000_001));
    assert_eq!(parse_duration_us(""), None);
    assert_eq!(parse_duration_us("."), None);
    assert_eq!(parse_duration_us("1.2.3"), None);
    assert_eq!(parse_duration_us("12a"), None);
}

#[test]
fn numeral_round_trips() {
    assert_eq!(u64_to_string(0), "0");
    assert_eq!(u64_to_string(7), "7");
    assert_eq!(u64_to_string(12345), "12345");
    assert_eq!(u64_to_string(u64::MAX), "18446744073709551615");
    assert_eq!(parse_u32("017"), Some(17));
    assert_eq!(parse_u32("+17"), Some(17));
    assert_eq!(parse_u32("4294967295"), Some(u32::MAX));
    assert_eq!(parse_u32("4294967296"), None);
    assert_eq!(parse_u32(""), None);
    assert_eq!(parse_u32("-5"), None);
}

#[test]
fn metadata_rounds_and_normalizes() {
    let m = VideoMetadata::from_probe(59_520_000, 1920, 1080, 30000, 1001, 0, false);
    assert_eq!(m.duration_secs, 60);
    assert_eq!(m.duration_raw_us, 59_520_000);
    assert_eq!(m.audio_channels, 0);
    assert!(!m.has_audio);
    // a probed channel count is kept only when audio is present
    let m = VideoMetadata::from_probe(10_400_000, 1280, 720, 25, 1, 6, true);
    assert_eq!(m.duration_secs, 10);
    assert_eq!(m.audio_channels, 6);
}

#[test]
fn duration_display_quotes_seconds() {
    let m = VideoMetadata::from_probe(60_000_000, 1920, 1080, 30000, 1001, 2, true);
    assert_eq!(m.duration_display(), "60\"");
}

#[test]
fn error_messages() {
    assert_eq!(
        EncoderError::FfmpegNotFound.message(),
        "FFmpeg/FFprobe não encontrado no PATH"
    );
    assert_eq!(
        EncoderError::CodeNotFound(99).message(),
        "Código 99 não encontrado na tabela de registros"
    );
    assert_eq!(
        EncoderError::EncodingFailed("x".to_string()).message(),
        "Falha no encoding: x"
    );
    assert_eq!(
        EncoderError::ConfigError("y".to_string()).message(),
        "Erro na configuração: y"
    );
}

#[test]
fn slate_data_combines_job_and_defaults() {
    let defaults = Defaults {
        produto: "Produto".to_string(),
        produtora: "Produtora".to_string(),
        agencia: "Agencia".to_string(),
        anunciante: "Anunciante".to_string(),
        diretor: "Diretor".to_string(),
        output: String::new(),
    };
    let slate = SlateData::new("FEV_PROMO_17", "60\"", "R1", "2024", &defaults);
    assert_eq!(slate.titulo, "FEV_PROMO_17");
    assert_eq!(slate.duracao, "60\"");
    assert_eq!(slate.registro, "R1");
    assert_eq!(slate.data, "2024");
    assert_eq!(slate.produto, "Produto");
    assert_eq!(slate.produtora, "Produtora");
    assert_eq!(slate.agencia, "Agencia");
    assert_eq!(slate.anunciante, "Anunciante");
    assert_eq!(slate.diretor, "Diretor");
}

#[test]
fn template_search_reports_missing() {
    let e = find_template("/nonexistent_dir_for_template_search").unwrap_err();
    match e {
        EncoderError::TemplateNotFound(msg) => {
            assert_eq!(msg, "Coloque o arquivo em assets/template.png (1920x1080)");
        }
        other => panic!("unexpected error: {}", other.message()),
    }
}
