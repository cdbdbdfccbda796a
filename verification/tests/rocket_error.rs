use argus::rocket_error::{ErrorContext, ErrorContextTrait, RocketError, RocketErrorType, SpawnError};
use embedded_sdmmc::SdMmcError;
use mavlink_core::error::{MessageReadError, MessageWriteError};

#[test]
fn converted_error_has_no_context() {
    let err = RocketError::from(postcard::Error::DeserializeUnexpectedEnd);
    assert!(err.get_context().is_none());
    assert!(matches!(
        err.error(),
        RocketErrorType::PostcardError(postcard::Error::DeserializeUnexpectedEnd)
    ));
}

#[test]
fn error_context_attaches_context() {
    let res: Result<u8, postcard::Error> = Err(postcard::Error::SerializeBufferFull);
    let err = res.error_context(ErrorContext::UnkownPostcardMessage).unwrap_err();
    assert_eq!(err.get_context(), Some(ErrorContext::UnkownPostcardMessage));
    assert!(matches!(
        err.error(),
        RocketErrorType::PostcardError(postcard::Error::SerializeBufferFull)
    ));
}

#[test]
fn error_context_keeps_ok_value() {
    let res: Result<u8, postcard::Error> = Ok(42);
    assert_eq!(res.error_context(ErrorContext::GroundStation).ok(), Some(42));
}

#[test]
fn error_context_from_sd_card_error() {
    let res: Result<(), embedded_sdmmc::Error<SdMmcError>> =
        Err(embedded_sdmmc::Error::DeviceError(SdMmcError::Transport));
    let err = res.error_context(ErrorContext::NoRadioTransfer).unwrap_err();
    assert_eq!(err.get_context(), Some(ErrorContext::NoRadioTransfer));
    assert!(matches!(
        err.error(),
        RocketErrorType::SdCardError(embedded_sdmmc::Error::DeviceError(SdMmcError::Transport))
    ));
}

#[test]
fn spawn_error_on_ok_is_ok() {
    let res: Result<u32, ()> = Ok(7);
    assert!(res.spawn_error("blink").is_ok());
}

#[test]
fn spawn_error_names_the_task() {
    let res: Result<(), u8> = Err(3);
    let err = res.spawn_error("sensor_send").unwrap_err();
    assert!(err.get_context().is_none());
    assert!(matches!(err.error(), RocketErrorType::SpawnError("sensor_send")));
    assert_eq!(err.error().message(), "Could not spawn task 'sensor_send'");
}

#[test]
fn from_each_source_error() {
    let e: RocketErrorType = "task".into();
    assert!(matches!(e, RocketErrorType::SpawnError("task")));
    let e: RocketErrorType = MessageWriteError::MAVLink2Only.into();
    assert!(matches!(e, RocketErrorType::MavlinkError(MessageWriteError::MAVLink2Only)));
    let e: RocketErrorType = MessageReadError::eof().into();
    assert!(matches!(e, RocketErrorType::MavlinkReadError(_)));
    let e: RocketErrorType = nb::Error::<core::convert::Infallible>::WouldBlock.into();
    assert!(matches!(e, RocketErrorType::NbError(nb::Error::WouldBlock)));
    let e: RocketErrorType = embedded_sdmmc::Error::<SdMmcError>::FileNotFound.into();
    assert!(matches!(e, RocketErrorType::SdCardError(embedded_sdmmc::Error::FileNotFound)));
}

#[test]
fn messages_of_each_kind() {
    assert_eq!(
        RocketErrorType::PostcardError(postcard::Error::DeserializeBadBool).message(),
        "Postcard error: DeserializeBadBool"
    );
    assert_eq!(RocketErrorType::SpawnError("radio").message(), "Could not spawn task 'radio'");
    assert_eq!(
        RocketErrorType::SdCardError(embedded_sdmmc::Error::Unsupported).message(),
        "SD card error!"
    );
    assert_eq!(RocketErrorType::MavlinkError(MessageWriteError::MAVLink2Only).message(), "Mavlink error!");
    assert_eq!(RocketErrorType::MavlinkReadError(MessageReadError::eof()).message(), "Mavlink read error!");
    assert_eq!(RocketErrorType::NbError(nb::Error::WouldBlock).message(), "Nb error!");
}

#[test]
fn new_and_into_parts_round_trip() {
    let err = RocketError::new(RocketErrorType::SpawnError("log"), Some(ErrorContext::GroundStation));
    assert_eq!(err.get_context(), Some(ErrorContext::GroundStation));
    let (error, context) = err.into_parts();
    assert!(matches!(error, RocketErrorType::SpawnError("log")));
    assert_eq!(context, Some(ErrorContext::GroundStation));
}

#[test]
fn converting_a_built_error_keeps_it_without_context() {
    let err = RocketError::from(RocketErrorType::NbError(nb::Error::WouldBlock));
    assert!(err.get_context().is_none());
    assert!(matches!(err.error(), RocketErrorType::NbError(nb::Error::WouldBlock)));
    let err = RocketError::from(nb::Error::<core::convert::Infallible>::WouldBlock);
    assert!(err.get_context().is_none());
    assert!(matches!(err.error(), RocketErrorType::NbError(nb::Error::WouldBlock)));
}
