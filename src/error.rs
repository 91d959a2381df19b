use vstd::prelude::*;

verus! {

// The driver's error enums are declared with their real variants, so that
// verified code can tell them apart.
#[verifier::external_type_specification]
pub struct ExSdMmcError(embedded_sdmmc::SdMmcError);

#[verifier::external_type_specification]
pub struct ExFilenameError(embedded_sdmmc::FilenameError);

#[verifier::external_type_specification]
#[verifier::reject_recursive_types(E)]
pub struct ExControllerError<E: core::fmt::Debug>(embedded_sdmmc::Error<E>);

/// Why one append to a log file failed, by the stage that failed.
///
/// `DE` is the error of the block device itself (bringing the card up), `FE`
/// the error of the file system layer on top of it.
#[derive(Debug)]
pub enum SdWriteError<DE, FE> {
    /// The card could not be initialised.
    CannotConnect(DE),
    /// None of the probed partitions could be mounted.
    NoSuitableVolume,
    /// The root directory of the mounted volume could not be opened.
    CannotReadRootDir(FE),
    /// The target file could not be opened or created.
    CannotOpenFile(FE),
    /// Writing the payload to the opened file failed.
    CannotWriteToOpenedFile(FE),
}

/// Short label of a card error, as shown on the status display.
pub open spec fn device_error_label(e: embedded_sdmmc::SdMmcError) -> &'static str {
    match e {
        embedded_sdmmc::SdMmcError::Transport => "Transport",
        embedded_sdmmc::SdMmcError::CantEnableCRC => "EnableCrc",
        embedded_sdmmc::SdMmcError::TimeoutReadBuffer => "TOReadBuf",
        embedded_sdmmc::SdMmcError::TimeoutWaitNotBusy => "TOWaitNoBusy",
        embedded_sdmmc::SdMmcError::TimeoutCommand(_) => "TOCommand",
        embedded_sdmmc::SdMmcError::TimeoutACommand(_) => "TOACommand",
        embedded_sdmmc::SdMmcError::Cmd58Error => "Cmd58Err",
        embedded_sdmmc::SdMmcError::RegisterReadError => "RegReadErr",
        embedded_sdmmc::SdMmcError::CrcError(_, _) => "Crc",
        embedded_sdmmc::SdMmcError::ReadError => "ReadErr",
        embedded_sdmmc::SdMmcError::WriteError => "WriteErr",
        embedded_sdmmc::SdMmcError::BadState => "BadState",
        embedded_sdmmc::SdMmcError::CardNotFound => "CardNotFound",
        embedded_sdmmc::SdMmcError::GpioError => "GpioErr",
    }
}

/// Short label of a file system error, as shown on the status display.
pub open spec fn controller_error_label<E: core::fmt::Debug>(
    e: embedded_sdmmc::Error<E>,
) -> &'static str {
    match e {
        embedded_sdmmc::Error::DeviceError(_) => "DevErr",
        embedded_sdmmc::Error::FormatError(_) => "FormatErr",
        embedded_sdmmc::Error::NoSuchVolume => "NoVol",
        embedded_sdmmc::Error::FilenameError(_) => "FNameErr",
        embedded_sdmmc::Error::TooManyOpenDirs => "ManyOpenDirs",
        embedded_sdmmc::Error::TooManyOpenFiles => "ManyOpenFiles",
        embedded_sdmmc::Error::FileNotFound => "FileNotFound",
        embedded_sdmmc::Error::FileAlreadyOpen => "FAlreadyOpen",
        embedded_sdmmc::Error::DirAlreadyOpen => "DirAlreadyOpen",
        embedded_sdmmc::Error::OpenedDirAsFile => "OpenDirAsFile",
        embedded_sdmmc::Error::Unsupported => "Unsupported",
        embedded_sdmmc::Error::EndOfFile => "EOF",
        embedded_sdmmc::Error::BadCluster => "BadCluster",
        embedded_sdmmc::Error::ConversionError => "ConvertErr",
        embedded_sdmmc::Error::NotEnoughSpace => "NoSpace",
        embedded_sdmmc::Error::AllocationError => "AllocErr",
        embedded_sdmmc::Error::JumpedFree => "JumpedFree",
        embedded_sdmmc::Error::ReadOnly => "ReadOnly",
        embedded_sdmmc::Error::FileAlreadyExists => "FileExists",
    }
}

/// Label of the stage at which an append failed.
pub open spec fn stage_label<DE, FE>(e: SdWriteError<DE, FE>) -> &'static str {
    match e {
        SdWriteError::CannotConnect(_) => "Conn",
        SdWriteError::NoSuitableVolume => "NoVol",
        SdWriteError::CannotReadRootDir(_) => "RootE",
        SdWriteError::CannotOpenFile(_) => "OpenE",
        SdWriteError::CannotWriteToOpenedFile(_) => "WrE",
    }
}

/// Label of the underlying driver error that an append error carries, if any.
pub open spec fn detail_label<E: core::fmt::Debug>(
    e: SdWriteError<embedded_sdmmc::SdMmcError, embedded_sdmmc::Error<E>>,
) -> Option<&'static str> {
    match e {
        SdWriteError::CannotConnect(d) => Some(device_error_label(d)),
        SdWriteError::NoSuitableVolume => None,
        SdWriteError::CannotReadRootDir(f) => Some(controller_error_label(f)),
        SdWriteError::CannotOpenFile(f) => Some(controller_error_label(f)),
        SdWriteError::CannotWriteToOpenedFile(f) => Some(controller_error_label(f)),
    }
}

/// Short label of a card error.
pub fn device_error_to_str(error: &embedded_sdmmc::SdMmcError) -> (r: &'static str)
    ensures
        r == device_error_label(*error),
{
    match error {
        embedded_sdmmc::SdMmcError::Transport => "Transport",
        embedded_sdmmc::SdMmcError::CantEnableCRC => "EnableCrc",
        embedded_sdmmc::SdMmcError::TimeoutReadBuffer => "TOReadBuf",
        embedded_sdmmc::SdMmcError::TimeoutWaitNotBusy => "TOWaitNoBusy",
        embedded_sdmmc::SdMmcError::TimeoutCommand(_) => "TOCommand",
        embedded_sdmmc::SdMmcError::TimeoutACommand(_) => "TOACommand",
        embedded_sdmmc::SdMmcError::Cmd58Error => "Cmd58Err",
        embedded_sdmmc::SdMmcError::RegisterReadError => "RegReadErr",
        embedded_sdmmc::SdMmcError::CrcError(_, _) => "Crc",
        embedded_sdmmc::SdMmcError::ReadError => "ReadErr",
        embedded_sdmmc::SdMmcError::WriteError => "WriteErr",
        embedded_sdmmc::SdMmcError::BadState => "BadState",
        embedded_sdmmc::SdMmcError::CardNotFound => "CardNotFound",
        embedded_sdmmc::SdMmcError::GpioError => "GpioErr",
    }
}

/// Short label of a file system error.
pub fn controller_error_to_str<E: core::fmt::Debug>(
    error: &embedded_sdmmc::Error<E>,
) -> (r: &'static str)
    ensures
        r == controller_error_label(*error),
{
    match error {
        embedded_sdmmc::Error::DeviceError(_) => "DevErr",
        embedded_sdmmc::Error::FormatError(_) => "FormatErr",
        embedded_sdmmc::Error::NoSuchVolume => "NoVol",
        embedded_sdmmc::Error::FilenameError(_) => "FNameErr",
        embedded_sdmmc::Error::TooManyOpenDirs => "ManyOpenDirs",
        embedded_sdmmc::Error::TooManyOpenFiles => "ManyOpenFiles",
        embedded_sdmmc::Error::FileNotFound => "FileNotFound",
        embedded_sdmmc::Error::FileAlreadyOpen => "FAlreadyOpen",
        embedded_sdmmc::Error::DirAlreadyOpen => "DirAlreadyOpen",
        embedded_sdmmc::Error::OpenedDirAsFile => "OpenDirAsFile",
        embedded_sdmmc::Error::Unsupported => "Unsupported",
        embedded_sdmmc::Error::EndOfFile => "EOF",
        embedded_sdmmc::Error::BadCluster => "BadCluster",
        embedded_sdmmc::Error::ConversionError => "ConvertErr",
        embedded_sdmmc::Error::NotEnoughSpace => "NoSpace",
        embedded_sdmmc::Error::AllocationError => "AllocErr",
        embedded_sdmmc::Error::JumpedFree => "JumpedFree",
        embedded_sdmmc::Error::ReadOnly => "ReadOnly",
        embedded_sdmmc::Error::FileAlreadyExists => "FileExists",
    }
}

impl<DE, FE> SdWriteError<DE, FE> {
    /// Label of the failed stage: the part of the status text before the colon.
    pub fn stage_label(&self) -> (r: &'static str)
        ensures
            r == stage_label(*self),
    {
        match self {
            SdWriteError::CannotConnect(_) => "Conn",
            SdWriteError::NoSuitableVolume => "NoVol",
            SdWriteError::CannotReadRootDir(_) => "RootE",
            SdWriteError::CannotOpenFile(_) => "OpenE",
            SdWriteError::CannotWriteToOpenedFile(_) => "WrE",
        }
    }
}

/// The two labels of the status text of a failed append: the stage, and the
/// driver error behind it where the stage carries one.
pub fn error_labels<E: core::fmt::Debug>(
    error: &SdWriteError<embedded_sdmmc::SdMmcError, embedded_sdmmc::Error<E>>,
) -> (r: (&'static str, Option<&'static str>))
    ensures
        r.0 == stage_label(*error),
        r.1 == detail_label(*error),
{
    let stage = error.stage_label();
    let detail = match error {
        SdWriteError::CannotConnect(d) => Some(device_error_to_str(d)),
        SdWriteError::NoSuitableVolume => None,
        SdWriteError::CannotReadRootDir(f) => Some(controller_error_to_str(f)),
        SdWriteError::CannotOpenFile(f) => Some(controller_error_to_str(f)),
        SdWriteError::CannotWriteToOpenedFile(f) => Some(controller_error_to_str(f)),
    };
    (stage, detail)
}

} // verus!
