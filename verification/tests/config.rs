use printer_monitor::config::{
    Config, ConfigError, EnvVars, RequiredVar, SensitivityVar, SENSITIVITY_DEFAULT,
    SENSITIVITY_MAX, SENSITIVITY_MIN,
};
use printer_monitor::scalar::Scalar;

fn text(s: &str) -> Option<String> {
    Some(s.to_string())
}

fn number(x: f64) -> SensitivityVar {
    SensitivityVar::Number(Scalar { bits: x.to_bits() })
}

fn vars() -> EnvVars {
    EnvVars {
        telegram_chat_id: text("-1001234567890"),
        detection_sensitivity: SensitivityVar::Unset,
        prusalink_url: text("http://192.168.0.10"),
        prusalink_api_key: text("key"),
        rtsp_url: text("rtsp://cam/live"),
        obico_url: text("http://obico:3333"),
        obico_image_host: text("monitor:8090"),
        telegram_bot_token: text("token"),
    }
}

fn error(vars: EnvVars) -> ConfigError {
    Config::from_env(vars).unwrap_err()
}

#[test]
fn a_full_environment_gives_a_configuration() {
    let config = Config::from_env(vars()).unwrap();
    let prusalink = config.prusalink.unwrap();
    assert_eq!(prusalink.url, "http://192.168.0.10");
    assert_eq!(prusalink.api_key, "key");
    assert_eq!(config.rtsp_url, "rtsp://cam/live");
    assert_eq!(config.obico_url, "http://obico:3333");
    assert_eq!(config.obico_image_host, "monitor:8090");
    assert_eq!(config.telegram_bot_token, "token");
    assert_eq!(config.telegram_chat_id, -1001234567890);
    assert_eq!(config.detection_sensitivity.bits, 1.0f64.to_bits());
}

#[test]
fn the_printer_is_optional_as_a_whole() {
    let mut without = vars();
    without.prusalink_url = None;
    without.prusalink_api_key = None;
    assert!(Config::from_env(without).unwrap().prusalink.is_none());

    let mut half = vars();
    half.prusalink_url = None;
    assert_eq!(error(half), ConfigError::PrusaLinkHalfSet);
    let mut half = vars();
    half.prusalink_api_key = None;
    assert_eq!(error(half), ConfigError::PrusaLinkHalfSet);
}

#[test]
fn sensitivity_has_its_range() {
    assert_eq!(SENSITIVITY_MIN, 0.1f64.to_bits());
    assert_eq!(SENSITIVITY_MAX, 5.0f64.to_bits());
    assert_eq!(SENSITIVITY_DEFAULT, 1.0f64.to_bits());
    for x in [0.1, 0.5, 1.2, 5.0] {
        let mut v = vars();
        v.detection_sensitivity = number(x);
        assert_eq!(Config::from_env(v).unwrap().detection_sensitivity.bits, x.to_bits());
    }
    for x in [0.0, -0.0, 0.09999999999999999, 5.000000000000001, -1.0, f64::NAN, f64::INFINITY] {
        let mut v = vars();
        v.detection_sensitivity = number(x);
        assert_eq!(error(v), ConfigError::SensitivityOutOfRange);
    }
    let mut v = vars();
    v.detection_sensitivity = SensitivityVar::NotANumber;
    assert_eq!(error(v), ConfigError::SensitivityNotANumber);
}

#[test]
fn chat_ids_are_numbers() {
    for (id, value) in [
        ("0", 0),
        ("+7", 7),
        ("-0", 0),
        ("007", 7),
        ("9223372036854775807", i64::MAX),
        ("-9223372036854775808", i64::MIN),
    ] {
        let mut v = vars();
        v.telegram_chat_id = text(id);
        assert_eq!(Config::from_env(v).unwrap().telegram_chat_id, value);
    }
    for id in ["", "-", "+", " 1", "1 ", "1.0", "@me", "9223372036854775808", "--1"] {
        let mut v = vars();
        v.telegram_chat_id = text(id);
        assert_eq!(error(v), ConfigError::ChatIdNotANumber);
    }
}

#[test]
fn required_variables_are_required() {
    let mut v = vars();
    v.telegram_chat_id = None;
    assert_eq!(error(v), ConfigError::Missing(RequiredVar::TelegramChatId));
    let mut v = vars();
    v.rtsp_url = None;
    assert_eq!(error(v), ConfigError::Missing(RequiredVar::RtspUrl));
    let mut v = vars();
    v.obico_url = None;
    assert_eq!(error(v), ConfigError::Missing(RequiredVar::ObicoUrl));
    let mut v = vars();
    v.obico_image_host = None;
    assert_eq!(error(v), ConfigError::Missing(RequiredVar::ObicoImageHost));
    let mut v = vars();
    v.telegram_bot_token = None;
    assert_eq!(error(v), ConfigError::Missing(RequiredVar::TelegramBotToken));
    let mut v = vars();
    v.obico_image_host = text("monitor");
    assert_eq!(error(v), ConfigError::ImageHostWithoutPort);
}

#[test]
fn the_first_problem_is_named() {
    let mut v = vars();
    v.telegram_chat_id = text("x");
    v.detection_sensitivity = SensitivityVar::NotANumber;
    v.prusalink_url = None;
    v.rtsp_url = None;
    assert_eq!(error(v), ConfigError::ChatIdNotANumber);
}

#[test]
fn problems_in_words() {
    for (error, words) in [
        (ConfigError::Missing(RequiredVar::TelegramChatId), "TELEGRAM_CHAT_ID env var must be set"),
        (ConfigError::Missing(RequiredVar::RtspUrl), "RTSP_URL env var must be set"),
        (ConfigError::Missing(RequiredVar::ObicoUrl), "OBICO_URL env var must be set"),
        (ConfigError::Missing(RequiredVar::ObicoImageHost), "OBICO_IMAGE_HOST env var must be set"),
        (
            ConfigError::Missing(RequiredVar::TelegramBotToken),
            "TELEGRAM_BOT_TOKEN env var must be set",
        ),
        (ConfigError::ChatIdNotANumber, "TELEGRAM_CHAT_ID must be a number"),
        (ConfigError::SensitivityNotANumber, "DETECTION_SENSITIVITY must be a number"),
        (
            ConfigError::SensitivityOutOfRange,
            "DETECTION_SENSITIVITY must be between 0.1 and 5.0, got: 9.5",
        ),
        (
            ConfigError::PrusaLinkHalfSet,
            "PRUSALINK_URL and PRUSALINK_API_KEY must both be set or both be unset",
        ),
        (ConfigError::ImageHostWithoutPort, "OBICO_IMAGE_HOST must be host:port, got: 9.5"),
    ] {
        assert_eq!(error.message("9.5"), words);
    }
}
