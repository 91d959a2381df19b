use embedded_sdmmc::{Error, FilenameError, SdMmcError};
use sd_logger::error::{controller_error_to_str, device_error_to_str, error_labels, SdWriteError};

type AppendError = SdWriteError<SdMmcError, Error<SdMmcError>>;

#[test]
fn device_errors_have_short_labels() {
    let cases = [
        (SdMmcError::Transport, "Transport"),
        (SdMmcError::CantEnableCRC, "EnableCrc"),
        (SdMmcError::TimeoutReadBuffer, "TOReadBuf"),
        (SdMmcError::TimeoutWaitNotBusy, "TOWaitNoBusy"),
        (SdMmcError::TimeoutCommand(8), "TOCommand"),
        (SdMmcError::TimeoutACommand(41), "TOACommand"),
        (SdMmcError::Cmd58Error, "Cmd58Err"),
        (SdMmcError::RegisterReadError, "RegReadErr"),
        (SdMmcError::CrcError(1, 2), "Crc"),
        (SdMmcError::ReadError, "ReadErr"),
        (SdMmcError::WriteError, "WriteErr"),
        (SdMmcError::BadState, "BadState"),
        (SdMmcError::CardNotFound, "CardNotFound"),
        (SdMmcError::GpioError, "GpioErr"),
    ];
    for (error, label) in cases {
        assert_eq!(device_error_to_str(&error), label);
    }
}

#[test]
fn file_system_errors_have_short_labels() {
    let cases: Vec<(Error<SdMmcError>, &str)> = vec![
        (Error::DeviceError(SdMmcError::ReadError), "DevErr"),
        (Error::FormatError("bad"), "FormatErr"),
        (Error::NoSuchVolume, "NoVol"),
        (Error::FilenameError(FilenameError::InvalidCharacter), "FNameErr"),
        (Error::TooManyOpenDirs, "ManyOpenDirs"),
        (Error::TooManyOpenFiles, "ManyOpenFiles"),
        (Error::FileNotFound, "FileNotFound"),
        (Error::FileAlreadyOpen, "FAlreadyOpen"),
        (Error::DirAlreadyOpen, "DirAlreadyOpen"),
        (Error::OpenedDirAsFile, "OpenDirAsFile"),
        (Error::Unsupported, "Unsupported"),
        (Error::EndOfFile, "EOF"),
        (Error::BadCluster, "BadCluster"),
        (Error::ConversionError, "ConvertErr"),
        (Error::NotEnoughSpace, "NoSpace"),
        (Error::AllocationError, "AllocErr"),
        (Error::JumpedFree, "JumpedFree"),
        (Error::ReadOnly, "ReadOnly"),
        (Error::FileAlreadyExists, "FileExists"),
    ];
    for (error, label) in cases {
        assert_eq!(controller_error_to_str(&error), label);
    }
}

#[test]
fn append_errors_name_stage_and_cause() {
    let cases: Vec<(AppendError, &str, Option<&str>)> = vec![
        (
            SdWriteError::CannotConnect(SdMmcError::CardNotFound),
            "Conn",
            Some("CardNotFound"),
        ),
        (SdWriteError::NoSuitableVolume, "NoVol", None),
        (
            SdWriteError::CannotReadRootDir(Error::FormatError("x")),
            "RootE",
            Some("FormatErr"),
        ),
        (
            SdWriteError::CannotOpenFile(Error::FileNotFound),
            "OpenE",
            Some("FileNotFound"),
        ),
        (
            SdWriteError::CannotWriteToOpenedFile(Error::NotEnoughSpace),
            "WrE",
            Some("NoSpace"),
        ),
    ];
    for (error, stage, detail) in cases {
        assert_eq!(error.stage_label(), stage);
        assert_eq!(error_labels(&error), (stage, detail));
    }
}
