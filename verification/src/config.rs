//! The configuration, as it follows from the environment variables.

use crate::scalar::Scalar;
use crate::text;
use vstd::prelude::*;
use vstd::string::*;

verus! {

/// The lowest sensitivity: the bits of the double nearest to 0.1.
pub const SENSITIVITY_MIN: u64 = 0x3FB9_9999_9999_999A;

/// The highest sensitivity: the bits of 5.
pub const SENSITIVITY_MAX: u64 = 0x4014_0000_0000_0000;

/// The sensitivity where none is configured: the bits of 1.
pub const SENSITIVITY_DEFAULT: u64 = 0x3FF0_0000_0000_0000;

/// How to reach the printer.
#[derive(Debug)]
pub struct PrusaLinkConfig {
    pub url: String,
    pub api_key: String,
}

/// The configuration of the service.
#[derive(Debug)]
pub struct Config {
    pub prusalink: Option<PrusaLinkConfig>,
    pub rtsp_url: String,
    pub obico_url: String,
    pub obico_image_host: String,
    pub telegram_bot_token: String,
    pub telegram_chat_id: i64,
    pub detection_sensitivity: Scalar,
}

/// What `DETECTION_SENSITIVITY` holds.
#[derive(Debug, Clone, Copy, PartialEq, Eq, Structural)]
pub enum SensitivityVar {
    Unset,
    NotANumber,
    Number(Scalar),
}

/// The environment variables that the configuration is made of, where they are set.
#[derive(Debug)]
pub struct EnvVars {
    pub telegram_chat_id: Option<String>,
    pub detection_sensitivity: SensitivityVar,
    pub prusalink_url: Option<String>,
    pub prusalink_api_key: Option<String>,
    pub rtsp_url: Option<String>,
    pub obico_url: Option<String>,
    pub obico_image_host: Option<String>,
    pub telegram_bot_token: Option<String>,
}

/// A variable that has to be set.
#[derive(Debug, Clone, Copy, PartialEq, Eq, Structural)]
pub enum RequiredVar {
    TelegramChatId,
    RtspUrl,
    ObicoUrl,
    ObicoImageHost,
    TelegramBotToken,
}

/// Why there is no configuration.
#[derive(Debug, Clone, Copy, PartialEq, Eq, Structural)]
pub enum ConfigError {
    Missing(RequiredVar),
    ChatIdNotANumber,
    SensitivityNotANumber,
    SensitivityOutOfRange,
    /// One of the two PrusaLink variables is set and the other is not.
    PrusaLinkHalfSet,
    /// `OBICO_IMAGE_HOST` has no port in it.
    ImageHostWithoutPort,
}

impl SensitivityVar {
    /// The sensitivity that the variable stands for, where it stands for one.
    pub open spec fn value(self) -> Option<Scalar> {
        match self {
            SensitivityVar::Unset => Some(Scalar { bits: SENSITIVITY_DEFAULT }),
            SensitivityVar::NotANumber => None,
            SensitivityVar::Number(x) => Some(x),
        }
    }
}

/// Whether a number is a sensitivity: from 0.1 to 5, both included.
pub open spec fn is_sensitivity(x: Scalar) -> bool {
    x.spec_at_least(SENSITIVITY_MIN) && x.spec_at_most(SENSITIVITY_MAX)
}

impl EnvVars {
    /// What is wrong with the variables: the first of these that applies, if any does.
    pub open spec fn problem(self) -> Option<ConfigError> {
        if self.telegram_chat_id is None {
            Some(ConfigError::Missing(RequiredVar::TelegramChatId))
        } else if text::signed_number(self.telegram_chat_id->0@) is None {
            Some(ConfigError::ChatIdNotANumber)
        } else if self.detection_sensitivity.value() is None {
            Some(ConfigError::SensitivityNotANumber)
        } else if !is_sensitivity(self.detection_sensitivity.value()->0) {
            Some(ConfigError::SensitivityOutOfRange)
        } else if self.prusalink_url is Some != self.prusalink_api_key is Some {
            Some(ConfigError::PrusaLinkHalfSet)
        } else if self.rtsp_url is None {
            Some(ConfigError::Missing(RequiredVar::RtspUrl))
        } else if self.obico_url is None {
            Some(ConfigError::Missing(RequiredVar::ObicoUrl))
        } else if self.obico_image_host is None {
            Some(ConfigError::Missing(RequiredVar::ObicoImageHost))
        } else if !self.obico_image_host->0@.contains(':') {
            Some(ConfigError::ImageHostWithoutPort)
        } else if self.telegram_bot_token is None {
            Some(ConfigError::Missing(RequiredVar::TelegramBotToken))
        } else {
            None
        }
    }

    /// Whether `config` is what the variables say.
    pub open spec fn describes(self, config: Config) -> bool {
        &&& match config.prusalink {
            Some(p) => self.prusalink_url == Some(p.url) && self.prusalink_api_key == Some(
                p.api_key,
            ),
            None => self.prusalink_url is None && self.prusalink_api_key is None,
        }
        &&& self.rtsp_url == Some(config.rtsp_url)
        &&& self.obico_url == Some(config.obico_url)
        &&& self.obico_image_host == Some(config.obico_image_host)
        &&& self.telegram_bot_token == Some(config.telegram_bot_token)
        &&& self.telegram_chat_id is Some
        &&& text::signed_number(self.telegram_chat_id->0@) == Some(config.telegram_chat_id as int)
        &&& self.detection_sensitivity.value() == Some(config.detection_sensitivity)
    }
}

impl Config {
    /// The configuration that the environment variables describe.
    pub fn from_env(vars: EnvVars) -> (r: Result<Config, ConfigError>)
        ensures
            match r {
                Ok(config) => vars.problem() is None && vars.describes(config),
                Err(e) => vars.problem() == Some(e),
            },
    {
        let telegram_chat_id = match &vars.telegram_chat_id {
            Some(id) => match text::parse_signed(id) {
                Some(id) => id,
                None => {
                    return Err(ConfigError::ChatIdNotANumber);
                },
            },
            None => {
                return Err(ConfigError::Missing(RequiredVar::TelegramChatId));
            },
        };
        let detection_sensitivity = match vars.detection_sensitivity {
            SensitivityVar::Unset => Scalar { bits: SENSITIVITY_DEFAULT },
            SensitivityVar::NotANumber => {
                return Err(ConfigError::SensitivityNotANumber);
            },
            SensitivityVar::Number(x) => x,
        };
        if !(detection_sensitivity.at_least(SENSITIVITY_MIN) && detection_sensitivity.at_most(
            SENSITIVITY_MAX,
        )) {
            return Err(ConfigError::SensitivityOutOfRange);
        }
        let prusalink = match (vars.prusalink_url, vars.prusalink_api_key) {
            (Some(url), Some(api_key)) => Some(PrusaLinkConfig { url, api_key }),
            (None, None) => None,
            _ => {
                return Err(ConfigError::PrusaLinkHalfSet);
            },
        };
        let rtsp_url = match vars.rtsp_url {
            Some(v) => v,
            None => {
                return Err(ConfigError::Missing(RequiredVar::RtspUrl));
            },
        };
        let obico_url = match vars.obico_url {
            Some(v) => v,
            None => {
                return Err(ConfigError::Missing(RequiredVar::ObicoUrl));
            },
        };
        let obico_image_host = match vars.obico_image_host {
            Some(v) => v,
            None => {
                return Err(ConfigError::Missing(RequiredVar::ObicoImageHost));
            },
        };
        if !text::has_char(&obico_image_host, ':') {
            return Err(ConfigError::ImageHostWithoutPort);
        }
        let telegram_bot_token = match vars.telegram_bot_token {
            Some(v) => v,
            None => {
                return Err(ConfigError::Missing(RequiredVar::TelegramBotToken));
            },
        };
        Ok(
            Config {
                prusalink,
                rtsp_url,
                obico_url,
                obico_image_host,
                telegram_bot_token,
                telegram_chat_id,
                detection_sensitivity,
            },
        )
    }
}

impl RequiredVar {
    /// The name of the variable.
    pub open spec fn spec_name(self) -> Seq<char> {
        match self {
            RequiredVar::TelegramChatId => "TELEGRAM_CHAT_ID"@,
            RequiredVar::RtspUrl => "RTSP_URL"@,
            RequiredVar::ObicoUrl => "OBICO_URL"@,
            RequiredVar::ObicoImageHost => "OBICO_IMAGE_HOST"@,
            RequiredVar::TelegramBotToken => "TELEGRAM_BOT_TOKEN"@,
        }
    }

    /// The name of the variable.
    pub fn name(self) -> (r: &'static str)
        ensures
            r@ == self.spec_name(),
    {
        match self {
            RequiredVar::TelegramChatId => "TELEGRAM_CHAT_ID",
            RequiredVar::RtspUrl => "RTSP_URL",
            RequiredVar::ObicoUrl => "OBICO_URL",
            RequiredVar::ObicoImageHost => "OBICO_IMAGE_HOST",
            RequiredVar::TelegramBotToken => "TELEGRAM_BOT_TOKEN",
        }
    }
}

impl ConfigError {
    /// What the error says. `value` is what the variable holds that is out of its range or
    /// without its port.
    pub open spec fn spec_message(self, value: Seq<char>) -> Seq<char> {
        match self {
            ConfigError::Missing(var) => var.spec_name() + " env var must be set"@,
            ConfigError::ChatIdNotANumber => "TELEGRAM_CHAT_ID must be a number"@,
            ConfigError::SensitivityNotANumber => "DETECTION_SENSITIVITY must be a number"@,
            ConfigError::SensitivityOutOfRange =>
                "DETECTION_SENSITIVITY must be between 0.1 and 5.0, got: "@ + value,
            ConfigError::PrusaLinkHalfSet =>
                "PRUSALINK_URL and PRUSALINK_API_KEY must both be set or both be unset"@,
            ConfigError::ImageHostWithoutPort => "OBICO_IMAGE_HOST must be host:port, got: "@
                + value,
        }
    }

    /// What the error says. `value` is what the variable holds that is out of its range or
    /// without its port.
    pub fn message(self, value: &str) -> (r: String)
        ensures
            r@ == self.spec_message(value@),
    {
        match self {
            ConfigError::Missing(var) => var.name().to_owned().concat(" env var must be set"),
            ConfigError::ChatIdNotANumber => "TELEGRAM_CHAT_ID must be a number".to_owned(),
            ConfigError::SensitivityNotANumber =>
                "DETECTION_SENSITIVITY must be a number".to_owned(),
            ConfigError::SensitivityOutOfRange =>
                "DETECTION_SENSITIVITY must be between 0.1 and 5.0, got: ".to_owned().concat(value),
            ConfigError::PrusaLinkHalfSet =>
                "PRUSALINK_URL and PRUSALINK_API_KEY must both be set or both be unset".to_owned(),
            ConfigError::ImageHostWithoutPort =>
                "OBICO_IMAGE_HOST must be host:port, got: ".to_owned().concat(value),
        }
    }
}

/// The printer is configured as a whole or not at all: a configuration has its address and its
/// key, or the environment has neither.
pub proof fn law_prusalink_is_whole(vars: EnvVars, config: Config)
    requires
        vars.problem() is None,
        vars.describes(config),
    ensures
        config.prusalink is Some <==> vars.prusalink_url is Some,
        config.prusalink is Some <==> vars.prusalink_api_key is Some,
{
}

/// What a good configuration promises the rest of the service: a port to serve images at, and a
/// sensitivity in its range.
pub proof fn law_configuration_is_usable(vars: EnvVars, config: Config)
    requires
        vars.problem() is None,
        vars.describes(config),
    ensures
        config.obico_image_host@.contains(':'),
        is_sensitivity(config.detection_sensitivity),
{
}

/// A sensitivity lies from 0.1 to 5, both included; where none is set, it is 1. (The numbers are the
/// doubles nearest to these, written as their bits.)
pub proof fn law_sensitivities_have_their_range(x: Scalar)
    ensures
        is_sensitivity(x) <==> 0x3FB9_9999_9999_999A <= x.bits <= 0x4014_0000_0000_0000,
        SensitivityVar::Unset.value() == Some(Scalar { bits: 0x3FF0_0000_0000_0000 }),
        SensitivityVar::NotANumber.value() is None,
        SensitivityVar::Number(x).value() == Some(x),
{
    crate::scalar::law_comparisons_go_by_bits(x, SENSITIVITY_MIN);
    crate::scalar::law_comparisons_go_by_bits(x, SENSITIVITY_MAX);
}

/// There is no problem exactly where every variable that has to be set is, and each that is set makes
/// sense.
pub proof fn law_good_environments_have_no_problem(vars: EnvVars)
    ensures
        vars.problem() is None <==> {
            &&& vars.telegram_chat_id matches Some(id) && text::signed_number(id@) is Some
            &&& match vars.detection_sensitivity {
                SensitivityVar::Unset => true,
                SensitivityVar::NotANumber => false,
                SensitivityVar::Number(x) => 0x3FB9_9999_9999_999A <= x.bits
                    <= 0x4014_0000_0000_0000,
            }
            &&& vars.prusalink_url is Some <==> vars.prusalink_api_key is Some
            &&& vars.rtsp_url is Some
            &&& vars.obico_url is Some
            &&& vars.obico_image_host matches Some(host) && host@.contains(':')
            &&& vars.telegram_bot_token is Some
        },
{
    match vars.detection_sensitivity {
        SensitivityVar::Number(x) => {
            law_sensitivities_have_their_range(x);
        },
        _ => {
            law_sensitivities_have_their_range(Scalar { bits: SENSITIVITY_DEFAULT });
        },
    }
}

/// Whether an error applies to the variables, whatever else is wrong with them.
pub open spec fn applies(error: ConfigError, vars: EnvVars) -> bool {
    match error {
        ConfigError::Missing(RequiredVar::TelegramChatId) => vars.telegram_chat_id is None,
        ConfigError::ChatIdNotANumber => vars.telegram_chat_id matches Some(id)
            && text::signed_number(id@) is None,
        ConfigError::SensitivityNotANumber => vars.detection_sensitivity is NotANumber,
        ConfigError::SensitivityOutOfRange => vars.detection_sensitivity matches
            SensitivityVar::Number(x) && !(0x3FB9_9999_9999_999A <= x.bits
            <= 0x4014_0000_0000_0000),
        ConfigError::PrusaLinkHalfSet => vars.prusalink_url is Some
            <==> vars.prusalink_api_key is None,
        ConfigError::Missing(RequiredVar::RtspUrl) => vars.rtsp_url is None,
        ConfigError::Missing(RequiredVar::ObicoUrl) => vars.obico_url is None,
        ConfigError::Missing(RequiredVar::ObicoImageHost) => vars.obico_image_host is None,
        ConfigError::ImageHostWithoutPort => vars.obico_image_host matches Some(host)
            && !host@.contains(':'),
        ConfigError::Missing(RequiredVar::TelegramBotToken) => vars.telegram_bot_token is None,
    }
}

/// The place of an error in the order in which the variables are looked at.
pub open spec fn place(error: ConfigError) -> int {
    match error {
        ConfigError::Missing(RequiredVar::TelegramChatId) => 0,
        ConfigError::ChatIdNotANumber => 1,
        ConfigError::SensitivityNotANumber => 2,
        ConfigError::SensitivityOutOfRange => 3,
        ConfigError::PrusaLinkHalfSet => 4,
        ConfigError::Missing(RequiredVar::RtspUrl) => 5,
        ConfigError::Missing(RequiredVar::ObicoUrl) => 6,
        ConfigError::Missing(RequiredVar::ObicoImageHost) => 7,
        ConfigError::ImageHostWithoutPort => 8,
        ConfigError::Missing(RequiredVar::TelegramBotToken) => 9,
    }
}

/// The problem that is told is one that applies, and no other that applies comes before it; where
/// any applies, one is told.
pub proof fn law_the_first_problem_is_told(vars: EnvVars, other: ConfigError)
    ensures
        vars.problem() matches Some(error) ==> applies(error, vars),
        applies(other, vars) ==> (vars.problem() matches Some(error) && place(error) <= place(
            other,
        )),
{
    match vars.detection_sensitivity {
        SensitivityVar::Number(x) => {
            law_sensitivities_have_their_range(x);
        },
        _ => {
            law_sensitivities_have_their_range(Scalar { bits: SENSITIVITY_DEFAULT });
        },
    }
}

/// A configuration holds what the variables hold, each in its place.
pub proof fn law_configurations_hold_the_variables(vars: EnvVars, config: Config)
    requires
        vars.describes(config),
    ensures
        vars.rtsp_url == Some(config.rtsp_url),
        vars.obico_url == Some(config.obico_url),
        vars.obico_image_host == Some(config.obico_image_host),
        vars.telegram_bot_token == Some(config.telegram_bot_token),
        vars.telegram_chat_id matches Some(id) && text::signed_number(id@) == Some(
            config.telegram_chat_id as int,
        ),
        config.prusalink matches Some(p) ==> vars.prusalink_url == Some(p.url)
            && vars.prusalink_api_key == Some(p.api_key),
        config.prusalink is None ==> vars.prusalink_url is None && vars.prusalink_api_key is None,
        vars.detection_sensitivity is Unset ==> config.detection_sensitivity.bits
            == 0x3FF0_0000_0000_0000,
        vars.detection_sensitivity matches SensitivityVar::Number(x) ==> config.detection_sensitivity
            == x,
{
}

/// An error names the variable that it is about and, where a value is to blame, the value.
pub proof fn law_errors_name_the_variable(var: RequiredVar, value: Seq<char>)
    ensures
        ConfigError::Missing(var).spec_message(value) == var.spec_name() + " env var must be set"@,
        ConfigError::SensitivityOutOfRange.spec_message(value)
            == "DETECTION_SENSITIVITY must be between 0.1 and 5.0, got: "@ + value,
        ConfigError::ImageHostWithoutPort.spec_message(value)
            == "OBICO_IMAGE_HOST must be host:port, got: "@ + value,
{
}

} // verus!
