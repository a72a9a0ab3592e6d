//! The closed type taxonomy: every field identifier that may appear on the
//! wire, together with the value-kind it is permanently bound to.
//!
//! Each identifier denotes a stable 32-bit wire value composed of a
//! value-kind bit flag OR'd with a small numeric suffix; the values are a
//! wire contract and must never be renumbered.  The kind of an identifier is
//! derived from its value, not stored.  Decoding an unrecognized 32-bit
//! value is rejected with an explicit lookup failure rather than being
//! reinterpreted blindly.
use vstd::prelude::*;

verus! {

/// The value-kind a field identifier is bound to: what shape of payload its
/// nodes carry on the wire.
///
/// `None` and `Compressed` are reserved and have no valid wire
/// representation; encoding or decoding a field of these kinds fails.
/// `Group` fields carry no scalar value, only child nodes.
#[derive(Clone, Copy, Debug, PartialEq, Eq, Structural)]
pub enum MetaType {
    NoneKind,
    Str,
    Uint,
    Raw,
    Bool,
    Qword,
    Compressed,
    Group,
    Complex,
}

/// The closed set of field identifiers understood by this protocol.
#[derive(Clone, Copy, Debug, PartialEq, Eq, Structural)]
pub enum TlvType {
    Any,
    Method,
    RequestId,
    Exception,
    ResultCode,
    Str,
    Uint,
    Bool,
    Length,
    Data,
    Flags,
    ChannelId,
    ChannelType,
    ChannelData,
    ChannelDataGroup,
    ChannelClass,
    ChannelParentId,
    SeekWhence,
    SeekOffset,
    SeekPos,
    ExceptionCode,
    ExceptionString,
    LibraryPath,
    TargetPath,
    MigratePid,
    MigratePayloadLen,
    MigratePayload,
    MigrateArch,
    MigrateBaseAddr,
    MigrateEntryPoint,
    MigrateSocketPath,
    MigrateStubLen,
    MigrateStub,
    TransType,
    TransUrl,
    TransUa,
    TransCommTimeout,
    TransSessExp,
    TransCertHash,
    TransProxyHost,
    TransProxyUser,
    TransProxyPass,
    TransRetryTotal,
    TransRetryWait,
    TransHeaders,
    TransGroup,
    MachineId,
    UUID,
    SessionGuid,
    RsaPubKey,
    SymKeyType,
    SymKey,
    EncSymKey,
    PivotId,
    PivotStageData,
    PivotStageDataLen,
    PivotNamedPipeName,
    StdapiComputerName,
    StdapiOperatingSystemName,
    StdapiUserName,
    StdapiArchitecture,
    StdapiLangSystem,
    StdapiSid,
    StdapiDomain,
    StdapiLoggedOnUserCount,
    StdapiLocalDateTime,
    StdapiEnvVariable,
    StdapiEnvValue,
    StdapiEnvGroup,
    StdapiDirectoryPath,
    StdapiFileName,
    StdapiFilePath,
    StdapiFileMode,
    StdapiFileSize,
    StdapiFileShortName,
    StdapiFileHash,
    StdapiMount,
    StdapiMountName,
    StdapiMountType,
    StdapiMountSpaceUser,
    StdapiMountSpaceTotal,
    StdapiMountSpaceFree,
    StdapiMountUncPath,
    StdapiStatBuf32,
    StdapiStatBuf,
    StdapiInterfaceMtu,
    StdapiInterfaceFlags,
    StdapiInterfaceIndex,
    StdapiSubnet,
    StdapiNetmask,
    StdapiGateway,
    StdapiNetworkRoute,
    StdapiIpPrefix,
    StdapiArpEntry,
    StdapiIp,
    StdapiMacAddr,
    StdapiMacName,
    StdapiNetworkInterface,
    StdapiIp6Scope,
    StdapiSubnetString,
    StdapiNetmaskString,
    StdapiGatewayString,
    StdapiRouteMetric,
    StdapiAddrType,
    StdapiProxyCfgAutodetect,
    StdapiProxyCfgAutoConfigUrL,
    StdapiProxyCfgProxy,
    StdapiProxyCfgProxyBypass,
    StdapiPeerHost,
    StdapiPeerPort,
    StdapiLocalHost,
    StdapiLocalPort,
    StdapiConnectRetries,
    StdapiNetstatEntry,
    StdapiPeerHostRaw,
    StdapiLocalHostRaw,
    StdapiShutdownHow,
    StdapiProcessId,
    StdapiProcessName,
    StdapiProcessPath,
    StdapiProcessGroup,
    StdapiProcessFlags,
    StdapiProcessArguments,
    StdapiProcessArch,
    StdapiProcessParentProcessId,
    StdapiProcessSession,
    StdapiPowerFlags,
    StdapiPowerReason,
}

impl TlvType {
    /// The stable 32-bit wire value of this field identifier.
    pub open spec fn code(self) -> u32 {
        match self {
            TlvType::Any => 0x0,
            TlvType::Method => 0x10001,
            TlvType::RequestId => 0x10002,
            TlvType::Exception => 0x40000003,
            TlvType::ResultCode => 0x20004,
            TlvType::Str => 0x1000a,
            TlvType::Uint => 0x2000b,
            TlvType::Bool => 0x8000c,
            TlvType::Length => 0x20019,
            TlvType::Data => 0x4001a,
            TlvType::Flags => 0x2001b,
            TlvType::ChannelId => 0x20032,
            TlvType::ChannelType => 0x10033,
            TlvType::ChannelData => 0x40034,
            TlvType::ChannelDataGroup => 0x40000035,
            TlvType::ChannelClass => 0x20036,
            TlvType::ChannelParentId => 0x20037,
            TlvType::SeekWhence => 0x20046,
            TlvType::SeekOffset => 0x20047,
            TlvType::SeekPos => 0x20048,
            TlvType::ExceptionCode => 0x2012c,
            TlvType::ExceptionString => 0x1012d,
            TlvType::LibraryPath => 0x10190,
            TlvType::TargetPath => 0x10191,
            TlvType::MigratePid => 0x20192,
            TlvType::MigratePayloadLen => 0x20193,
            TlvType::MigratePayload => 0x10194,
            TlvType::MigrateArch => 0x20195,
            TlvType::MigrateBaseAddr => 0x20197,
            TlvType::MigrateEntryPoint => 0x20198,
            TlvType::MigrateSocketPath => 0x20199,
            TlvType::MigrateStubLen => 0x2019a,
            TlvType::MigrateStub => 0x2019b,
            TlvType::TransType => 0x201ae,
            TlvType::TransUrl => 0x101af,
            TlvType::TransUa => 0x101b0,
            TlvType::TransCommTimeout => 0x201b1,
            TlvType::TransSessExp => 0x201b2,
            TlvType::TransCertHash => 0x401b3,
            TlvType::TransProxyHost => 0x101b4,
            TlvType::TransProxyUser => 0x101b5,
            TlvType::TransProxyPass => 0x101b6,
            TlvType::TransRetryTotal => 0x201b7,
            TlvType::TransRetryWait => 0x201b8,
            TlvType::TransHeaders => 0x101b9,
            TlvType::TransGroup => 0x400001ba,
            TlvType::MachineId => 0x101cc,
            TlvType::UUID => 0x401cd,
            TlvType::SessionGuid => 0x401ce,
            TlvType::RsaPubKey => 0x10226,
            TlvType::SymKeyType => 0x20227,
            TlvType::SymKey => 0x40228,
            TlvType::EncSymKey => 0x40229,
            TlvType::PivotId => 0x4028a,
            TlvType::PivotStageData => 0x4028b,
            TlvType::PivotStageDataLen => 0x2028c,
            TlvType::PivotNamedPipeName => 0x1028d,
            TlvType::StdapiComputerName => 0x10410,
            TlvType::StdapiOperatingSystemName => 0x10411,
            TlvType::StdapiUserName => 0x10412,
            TlvType::StdapiArchitecture => 0x10413,
            TlvType::StdapiLangSystem => 0x10414,
            TlvType::StdapiSid => 0x10415,
            TlvType::StdapiDomain => 0x10416,
            TlvType::StdapiLoggedOnUserCount => 0x20417,
            TlvType::StdapiLocalDateTime => 0x10418,
            TlvType::StdapiEnvVariable => 0x1044c,
            TlvType::StdapiEnvValue => 0x1044d,
            TlvType::StdapiEnvGroup => 0x4000044e,
            TlvType::StdapiDirectoryPath => 0x104b0,
            TlvType::StdapiFileName => 0x104b1,
            TlvType::StdapiFilePath => 0x104b2,
            TlvType::StdapiFileMode => 0x104b3,
            TlvType::StdapiFileSize => 0x204b4,
            TlvType::StdapiFileShortName => 0x104b5,
            TlvType::StdapiFileHash => 0x404b6,
            TlvType::StdapiMount => 0x400004b7,
            TlvType::StdapiMountName => 0x104b8,
            TlvType::StdapiMountType => 0x204b9,
            TlvType::StdapiMountSpaceUser => 0x1004ba,
            TlvType::StdapiMountSpaceTotal => 0x1004bb,
            TlvType::StdapiMountSpaceFree => 0x1004bc,
            TlvType::StdapiMountUncPath => 0x104bd,
            TlvType::StdapiStatBuf32 => 0x800004c4,
            TlvType::StdapiStatBuf => 0x800004c5,
            TlvType::StdapiInterfaceMtu => 0x2057a,
            TlvType::StdapiInterfaceFlags => 0x1057b,
            TlvType::StdapiInterfaceIndex => 0x2057c,
            TlvType::StdapiSubnet => 0x4058c,
            TlvType::StdapiNetmask => 0x4058d,
            TlvType::StdapiGateway => 0x4058e,
            TlvType::StdapiNetworkRoute => 0x4000058f,
            TlvType::StdapiIpPrefix => 0x20590,
            TlvType::StdapiArpEntry => 0x40000591,
            TlvType::StdapiIp => 0x40596,
            TlvType::StdapiMacAddr => 0x40597,
            TlvType::StdapiMacName => 0x10598,
            TlvType::StdapiNetworkInterface => 0x40000599,
            TlvType::StdapiIp6Scope => 0x4059a,
            TlvType::StdapiSubnetString => 0x105a0,
            TlvType::StdapiNetmaskString => 0x105a1,
            TlvType::StdapiGatewayString => 0x105a2,
            TlvType::StdapiRouteMetric => 0x205a3,
            TlvType::StdapiAddrType => 0x205a4,
            TlvType::StdapiProxyCfgAutodetect => 0x805a5,
            TlvType::StdapiProxyCfgAutoConfigUrL => 0x105a6,
            TlvType::StdapiProxyCfgProxy => 0x105a7,
            TlvType::StdapiProxyCfgProxyBypass => 0x105a8,
            TlvType::StdapiPeerHost => 0x105dc,
            TlvType::StdapiPeerPort => 0x205dd,
            TlvType::StdapiLocalHost => 0x105de,
            TlvType::StdapiLocalPort => 0x205df,
            TlvType::StdapiConnectRetries => 0x205e0,
            TlvType::StdapiNetstatEntry => 0x400005e1,
            TlvType::StdapiPeerHostRaw => 0x405e2,
            TlvType::StdapiLocalHostRaw => 0x405e3,
            TlvType::StdapiShutdownHow => 0x205fa,
            TlvType::StdapiProcessId => 0x208fc,
            TlvType::StdapiProcessName => 0x108fd,
            TlvType::StdapiProcessPath => 0x108fe,
            TlvType::StdapiProcessGroup => 0x400008ff,
            TlvType::StdapiProcessFlags => 0x20900,
            TlvType::StdapiProcessArguments => 0x10901,
            TlvType::StdapiProcessArch => 0x20902,
            TlvType::StdapiProcessParentProcessId => 0x20903,
            TlvType::StdapiProcessSession => 0x20904,
            TlvType::StdapiPowerFlags => 0x21004,
            TlvType::StdapiPowerReason => 0x21005,
        }
    }

    /// The value-kind encoded in the reserved high-bit region of this
    /// identifier's wire value.
    pub open spec fn spec_meta(self) -> MetaType {
        match self {
            TlvType::Any => MetaType::NoneKind,
            TlvType::Method => MetaType::Str,
            TlvType::RequestId => MetaType::Str,
            TlvType::Exception => MetaType::Group,
            TlvType::ResultCode => MetaType::Uint,
            TlvType::Str => MetaType::Str,
            TlvType::Uint => MetaType::Uint,
            TlvType::Bool => MetaType::Bool,
            TlvType::Length => MetaType::Uint,
            TlvType::Data => MetaType::Raw,
            TlvType::Flags => MetaType::Uint,
            TlvType::ChannelId => MetaType::Uint,
            TlvType::ChannelType => MetaType::Str,
            TlvType::ChannelData => MetaType::Raw,
            TlvType::ChannelDataGroup => MetaType::Group,
            TlvType::ChannelClass => MetaType::Uint,
            TlvType::ChannelParentId => MetaType::Uint,
            TlvType::SeekWhence => MetaType::Uint,
            TlvType::SeekOffset => MetaType::Uint,
            TlvType::SeekPos => MetaType::Uint,
            TlvType::ExceptionCode => MetaType::Uint,
            TlvType::ExceptionString => MetaType::Str,
            TlvType::LibraryPath => MetaType::Str,
            TlvType::TargetPath => MetaType::Str,
            TlvType::MigratePid => MetaType::Uint,
            TlvType::MigratePayloadLen => MetaType::Uint,
            TlvType::MigratePayload => MetaType::Str,
            TlvType::MigrateArch => MetaType::Uint,
            TlvType::MigrateBaseAddr => MetaType::Uint,
            TlvType::MigrateEntryPoint => MetaType::Uint,
            TlvType::MigrateSocketPath => MetaType::Uint,
            TlvType::MigrateStubLen => MetaType::Uint,
            TlvType::MigrateStub => MetaType::Uint,
            TlvType::TransType => MetaType::Uint,
            TlvType::TransUrl => MetaType::Str,
            TlvType::TransUa => MetaType::Str,
            TlvType::TransCommTimeout => MetaType::Uint,
            TlvType::TransSessExp => MetaType::Uint,
            TlvType::TransCertHash => MetaType::Raw,
            TlvType::TransProxyHost => MetaType::Str,
            TlvType::TransProxyUser => MetaType::Str,
            TlvType::TransProxyPass => MetaType::Str,
            TlvType::TransRetryTotal => MetaType::Uint,
            TlvType::TransRetryWait => MetaType::Uint,
            TlvType::TransHeaders => MetaType::Str,
            TlvType::TransGroup => MetaType::Group,
            TlvType::MachineId => MetaType::Str,
            TlvType::UUID => MetaType::Raw,
            TlvType::SessionGuid => MetaType::Raw,
            TlvType::RsaPubKey => MetaType::Str,
            TlvType::SymKeyType => MetaType::Uint,
            TlvType::SymKey => MetaType::Raw,
            TlvType::EncSymKey => MetaType::Raw,
            TlvType::PivotId => MetaType::Raw,
            TlvType::PivotStageData => MetaType::Raw,
            TlvType::PivotStageDataLen => MetaType::Uint,
            TlvType::PivotNamedPipeName => MetaType::Str,
            TlvType::StdapiComputerName => MetaType::Str,
            TlvType::StdapiOperatingSystemName => MetaType::Str,
            TlvType::StdapiUserName => MetaType::Str,
            TlvType::StdapiArchitecture => MetaType::Str,
            TlvType::StdapiLangSystem => MetaType::Str,
            TlvType::StdapiSid => MetaType::Str,
            TlvType::StdapiDomain => MetaType::Str,
            TlvType::StdapiLoggedOnUserCount => MetaType::Uint,
            TlvType::StdapiLocalDateTime => MetaType::Str,
            TlvType::StdapiEnvVariable => MetaType::Str,
            TlvType::StdapiEnvValue => MetaType::Str,
            TlvType::StdapiEnvGroup => MetaType::Group,
            TlvType::StdapiDirectoryPath => MetaType::Str,
            TlvType::StdapiFileName => MetaType::Str,
            TlvType::StdapiFilePath => MetaType::Str,
            TlvType::StdapiFileMode => MetaType::Str,
            TlvType::StdapiFileSize => MetaType::Uint,
            TlvType::StdapiFileShortName => MetaType::Str,
            TlvType::StdapiFileHash => MetaType::Raw,
            TlvType::StdapiMount => MetaType::Group,
            TlvType::StdapiMountName => MetaType::Str,
            TlvType::StdapiMountType => MetaType::Uint,
            TlvType::StdapiMountSpaceUser => MetaType::Qword,
            TlvType::StdapiMountSpaceTotal => MetaType::Qword,
            TlvType::StdapiMountSpaceFree => MetaType::Qword,
            TlvType::StdapiMountUncPath => MetaType::Str,
            TlvType::StdapiStatBuf32 => MetaType::Complex,
            TlvType::StdapiStatBuf => MetaType::Complex,
            TlvType::StdapiInterfaceMtu => MetaType::Uint,
            TlvType::StdapiInterfaceFlags => MetaType::Str,
            TlvType::StdapiInterfaceIndex => MetaType::Uint,
            TlvType::StdapiSubnet => MetaType::Raw,
            TlvType::StdapiNetmask => MetaType::Raw,
            TlvType::StdapiGateway => MetaType::Raw,
            TlvType::StdapiNetworkRoute => MetaType::Group,
            TlvType::StdapiIpPrefix => MetaType::Uint,
            TlvType::StdapiArpEntry => MetaType::Group,
            TlvType::StdapiIp => MetaType::Raw,
            TlvType::StdapiMacAddr => MetaType::Raw,
            TlvType::StdapiMacName => MetaType::Str,
            TlvType::StdapiNetworkInterface => MetaType::Group,
            TlvType::StdapiIp6Scope => MetaType::Raw,
            TlvType::StdapiSubnetString => MetaType::Str,
            TlvType::StdapiNetmaskString => MetaType::Str,
            TlvType::StdapiGatewayString => MetaType::Str,
            TlvType::StdapiRouteMetric => MetaType::Uint,
            TlvType::StdapiAddrType => MetaType::Uint,
            TlvType::StdapiProxyCfgAutodetect => MetaType::Bool,
            TlvType::StdapiProxyCfgAutoConfigUrL => MetaType::Str,
            TlvType::StdapiProxyCfgProxy => MetaType::Str,
            TlvType::StdapiProxyCfgProxyBypass => MetaType::Str,
            TlvType::StdapiPeerHost => MetaType::Str,
            TlvType::StdapiPeerPort => MetaType::Uint,
            TlvType::StdapiLocalHost => MetaType::Str,
            TlvType::StdapiLocalPort => MetaType::Uint,
            TlvType::StdapiConnectRetries => MetaType::Uint,
            TlvType::StdapiNetstatEntry => MetaType::Group,
            TlvType::StdapiPeerHostRaw => MetaType::Raw,
            TlvType::StdapiLocalHostRaw => MetaType::Raw,
            TlvType::StdapiShutdownHow => MetaType::Uint,
            TlvType::StdapiProcessId => MetaType::Uint,
            TlvType::StdapiProcessName => MetaType::Str,
            TlvType::StdapiProcessPath => MetaType::Str,
            TlvType::StdapiProcessGroup => MetaType::Group,
            TlvType::StdapiProcessFlags => MetaType::Uint,
            TlvType::StdapiProcessArguments => MetaType::Str,
            TlvType::StdapiProcessArch => MetaType::Uint,
            TlvType::StdapiProcessParentProcessId => MetaType::Uint,
            TlvType::StdapiProcessSession => MetaType::Uint,
            TlvType::StdapiPowerFlags => MetaType::Uint,
            TlvType::StdapiPowerReason => MetaType::Uint,
        }
    }

    /// The field identifier whose wire value is `c`, if the taxonomy has one.
    pub open spec fn spec_from_code(c: u32) -> Option<TlvType> {
        if c == 0x0 {
            Some(TlvType::Any)
        } else if c == 0x10001 {
            Some(TlvType::Method)
        } else if c == 0x10002 {
            Some(TlvType::RequestId)
        } else if c == 0x40000003 {
            Some(TlvType::Exception)
        } else if c == 0x20004 {
            Some(TlvType::ResultCode)
        } else if c == 0x1000a {
            Some(TlvType::Str)
        } else if c == 0x2000b {
            Some(TlvType::Uint)
        } else if c == 0x8000c {
            Some(TlvType::Bool)
        } else if c == 0x20019 {
            Some(TlvType::Length)
        } else if c == 0x4001a {
            Some(TlvType::Data)
        } else if c == 0x2001b {
            Some(TlvType::Flags)
        } else if c == 0x20032 {
            Some(TlvType::ChannelId)
        } else if c == 0x10033 {
            Some(TlvType::ChannelType)
        } else if c == 0x40034 {
            Some(TlvType::ChannelData)
        } else if c == 0x40000035 {
            Some(TlvType::ChannelDataGroup)
        } else if c == 0x20036 {
            Some(TlvType::ChannelClass)
        } else if c == 0x20037 {
            Some(TlvType::ChannelParentId)
        } else if c == 0x20046 {
            Some(TlvType::SeekWhence)
        } else if c == 0x20047 {
            Some(TlvType::SeekOffset)
        } else if c == 0x20048 {
            Some(TlvType::SeekPos)
        } else if c == 0x2012c {
            Some(TlvType::ExceptionCode)
        } else if c == 0x1012d {
            Some(TlvType::ExceptionString)
        } else if c == 0x10190 {
            Some(TlvType::LibraryPath)
        } else if c == 0x10191 {
            Some(TlvType::TargetPath)
        } else if c == 0x20192 {
            Some(TlvType::MigratePid)
        } else if c == 0x20193 {
            Some(TlvType::MigratePayloadLen)
        } else if c == 0x10194 {
            Some(TlvType::MigratePayload)
        } else if c == 0x20195 {
            Some(TlvType::MigrateArch)
        } else if c == 0x20197 {
            Some(TlvType::MigrateBaseAddr)
        } else if c == 0x20198 {
            Some(TlvType::MigrateEntryPoint)
        } else if c == 0x20199 {
            Some(TlvType::MigrateSocketPath)
        } else if c == 0x2019a {
            Some(TlvType::MigrateStubLen)
        } else if c == 0x2019b {
            Some(TlvType::MigrateStub)
        } else if c == 0x201ae {
            Some(TlvType::TransType)
        } else if c == 0x101af {
            Some(TlvType::TransUrl)
        } else if c == 0x101b0 {
            Some(TlvType::TransUa)
        } else if c == 0x201b1 {
            Some(TlvType::TransCommTimeout)
        } else if c == 0x201b2 {
            Some(TlvType::TransSessExp)
        } else if c == 0x401b3 {
            Some(TlvType::TransCertHash)
        } else if c == 0x101b4 {
            Some(TlvType::TransProxyHost)
        } else if c == 0x101b5 {
            Some(TlvType::TransProxyUser)
        } else if c == 0x101b6 {
            Some(TlvType::TransProxyPass)
        } else if c == 0x201b7 {
            Some(TlvType::TransRetryTotal)
        } else if c == 0x201b8 {
            Some(TlvType::TransRetryWait)
        } else if c == 0x101b9 {
            Some(TlvType::TransHeaders)
        } else if c == 0x400001ba {
            Some(TlvType::TransGroup)
        } else if c == 0x101cc {
            Some(TlvType::MachineId)
        } else if c == 0x401cd {
            Some(TlvType::UUID)
        } else if c == 0x401ce {
            Some(TlvType::SessionGuid)
        } else if c == 0x10226 {
            Some(TlvType::RsaPubKey)
        } else if c == 0x20227 {
            Some(TlvType::SymKeyType)
        } else if c == 0x40228 {
            Some(TlvType::SymKey)
        } else if c == 0x40229 {
            Some(TlvType::EncSymKey)
        } else if c == 0x4028a {
            Some(TlvType::PivotId)
        } else if c == 0x4028b {
            Some(TlvType::PivotStageData)
        } else if c == 0x2028c {
            Some(TlvType::PivotStageDataLen)
        } else if c == 0x1028d {
            Some(TlvType::PivotNamedPipeName)
        } else if c == 0x10410 {
            Some(TlvType::StdapiComputerName)
        } else if c == 0x10411 {
            Some(TlvType::StdapiOperatingSystemName)
        } else if c == 0x10412 {
            Some(TlvType::StdapiUserName)
        } else if c == 0x10413 {
            Some(TlvType::StdapiArchitecture)
        } else if c == 0x10414 {
            Some(TlvType::StdapiLangSystem)
        } else if c == 0x10415 {
            Some(TlvType::StdapiSid)
        } else if c == 0x10416 {
            Some(TlvType::StdapiDomain)
        } else if c == 0x20417 {
            Some(TlvType::StdapiLoggedOnUserCount)
        } else if c == 0x10418 {
            Some(TlvType::StdapiLocalDateTime)
        } else if c == 0x1044c {
            Some(TlvType::StdapiEnvVariable)
        } else if c == 0x1044d {
            Some(TlvType::StdapiEnvValue)
        } else if c == 0x4000044e {
            Some(TlvType::StdapiEnvGroup)
        } else if c == 0x104b0 {
            Some(TlvType::StdapiDirectoryPath)
        } else if c == 0x104b1 {
            Some(TlvType::StdapiFileName)
        } else if c == 0x104b2 {
            Some(TlvType::StdapiFilePath)
        } else if c == 0x104b3 {
            Some(TlvType::StdapiFileMode)
        } else if c == 0x204b4 {
            Some(TlvType::StdapiFileSize)
        } else if c == 0x104b5 {
            Some(TlvType::StdapiFileShortName)
        } else if c == 0x404b6 {
            Some(TlvType::StdapiFileHash)
        } else if c == 0x400004b7 {
            Some(TlvType::StdapiMount)
        } else if c == 0x104b8 {
            Some(TlvType::StdapiMountName)
        } else if c == 0x204b9 {
            Some(TlvType::StdapiMountType)
        } else if c == 0x1004ba {
            Some(TlvType::StdapiMountSpaceUser)
        } else if c == 0x1004bb {
            Some(TlvType::StdapiMountSpaceTotal)
        } else if c == 0x1004bc {
            Some(TlvType::StdapiMountSpaceFree)
        } else if c == 0x104bd {
            Some(TlvType::StdapiMountUncPath)
        } else if c == 0x800004c4 {
            Some(TlvType::StdapiStatBuf32)
        } else if c == 0x800004c5 {
            Some(TlvType::StdapiStatBuf)
        } else if c == 0x2057a {
            Some(TlvType::StdapiInterfaceMtu)
        } else if c == 0x1057b {
            Some(TlvType::StdapiInterfaceFlags)
        } else if c == 0x2057c {
            Some(TlvType::StdapiInterfaceIndex)
        } else if c == 0x4058c {
            Some(TlvType::StdapiSubnet)
        } else if c == 0x4058d {
            Some(TlvType::StdapiNetmask)
        } else if c == 0x4058e {
            Some(TlvType::StdapiGateway)
        } else if c == 0x4000058f {
            Some(TlvType::StdapiNetworkRoute)
        } else if c == 0x20590 {
            Some(TlvType::StdapiIpPrefix)
        } else if c == 0x40000591 {
            Some(TlvType::StdapiArpEntry)
        } else if c == 0x40596 {
            Some(TlvType::StdapiIp)
        } else if c == 0x40597 {
            Some(TlvType::StdapiMacAddr)
        } else if c == 0x10598 {
            Some(TlvType::StdapiMacName)
        } else if c == 0x40000599 {
            Some(TlvType::StdapiNetworkInterface)
        } else if c == 0x4059a {
            Some(TlvType::StdapiIp6Scope)
        } else if c == 0x105a0 {
            Some(TlvType::StdapiSubnetString)
        } else if c == 0x105a1 {
            Some(TlvType::StdapiNetmaskString)
        } else if c == 0x105a2 {
            Some(TlvType::StdapiGatewayString)
        } else if c == 0x205a3 {
            Some(TlvType::StdapiRouteMetric)
        } else if c == 0x205a4 {
            Some(TlvType::StdapiAddrType)
        } else if c == 0x805a5 {
            Some(TlvType::StdapiProxyCfgAutodetect)
        } else if c == 0x105a6 {
            Some(TlvType::StdapiProxyCfgAutoConfigUrL)
        } else if c == 0x105a7 {
            Some(TlvType::StdapiProxyCfgProxy)
        } else if c == 0x105a8 {
            Some(TlvType::StdapiProxyCfgProxyBypass)
        } else if c == 0x105dc {
            Some(TlvType::StdapiPeerHost)
        } else if c == 0x205dd {
            Some(TlvType::StdapiPeerPort)
        } else if c == 0x105de {
            Some(TlvType::StdapiLocalHost)
        } else if c == 0x205df {
            Some(TlvType::StdapiLocalPort)
        } else if c == 0x205e0 {
            Some(TlvType::StdapiConnectRetries)
        } else if c == 0x400005e1 {
            Some(TlvType::StdapiNetstatEntry)
        } else if c == 0x405e2 {
            Some(TlvType::StdapiPeerHostRaw)
        } else if c == 0x405e3 {
            Some(TlvType::StdapiLocalHostRaw)
        } else if c == 0x205fa {
            Some(TlvType::StdapiShutdownHow)
        } else if c == 0x208fc {
            Some(TlvType::StdapiProcessId)
        } else if c == 0x108fd {
            Some(TlvType::StdapiProcessName)
        } else if c == 0x108fe {
            Some(TlvType::StdapiProcessPath)
        } else if c == 0x400008ff {
            Some(TlvType::StdapiProcessGroup)
        } else if c == 0x20900 {
            Some(TlvType::StdapiProcessFlags)
        } else if c == 0x10901 {
            Some(TlvType::StdapiProcessArguments)
        } else if c == 0x20902 {
            Some(TlvType::StdapiProcessArch)
        } else if c == 0x20903 {
            Some(TlvType::StdapiProcessParentProcessId)
        } else if c == 0x20904 {
            Some(TlvType::StdapiProcessSession)
        } else if c == 0x21004 {
            Some(TlvType::StdapiPowerFlags)
        } else if c == 0x21005 {
            Some(TlvType::StdapiPowerReason)
        } else {
            None
        }
    }

    /// The 32-bit wire value of this field identifier.
    pub fn to_code(self) -> (c: u32)
        ensures
            c == self.code(),
    {
        match self {
            TlvType::Any => 0x0u32,
            TlvType::Method => 0x10001u32,
            TlvType::RequestId => 0x10002u32,
            TlvType::Exception => 0x40000003u32,
            TlvType::ResultCode => 0x20004u32,
            TlvType::Str => 0x1000au32,
            TlvType::Uint => 0x2000bu32,
            TlvType::Bool => 0x8000cu32,
            TlvType::Length => 0x20019u32,
            TlvType::Data => 0x4001au32,
            TlvType::Flags => 0x2001bu32,
            TlvType::ChannelId => 0x20032u32,
            TlvType::ChannelType => 0x10033u32,
            TlvType::ChannelData => 0x40034u32,
            TlvType::ChannelDataGroup => 0x40000035u32,
            TlvType::ChannelClass => 0x20036u32,
            TlvType::ChannelParentId => 0x20037u32,
            TlvType::SeekWhence => 0x20046u32,
            TlvType::SeekOffset => 0x20047u32,
            TlvType::SeekPos => 0x20048u32,
            TlvType::ExceptionCode => 0x2012cu32,
            TlvType::ExceptionString => 0x1012du32,
            TlvType::LibraryPath => 0x10190u32,
            TlvType::TargetPath => 0x10191u32,
            TlvType::MigratePid => 0x20192u32,
            TlvType::MigratePayloadLen => 0x20193u32,
            TlvType::MigratePayload => 0x10194u32,
            TlvType::MigrateArch => 0x20195u32,
            TlvType::MigrateBaseAddr => 0x20197u32,
            TlvType::MigrateEntryPoint => 0x20198u32,
            TlvType::MigrateSocketPath => 0x20199u32,
            TlvType::MigrateStubLen => 0x2019au32,
            TlvType::MigrateStub => 0x2019bu32,
            TlvType::TransType => 0x201aeu32,
            TlvType::TransUrl => 0x101afu32,
            TlvType::TransUa => 0x101b0u32,
            TlvType::TransCommTimeout => 0x201b1u32,
            TlvType::TransSessExp => 0x201b2u32,
            TlvType::TransCertHash => 0x401b3u32,
            TlvType::TransProxyHost => 0x101b4u32,
            TlvType::TransProxyUser => 0x101b5u32,
            TlvType::TransProxyPass => 0x101b6u32,
            TlvType::TransRetryTotal => 0x201b7u32,
            TlvType::TransRetryWait => 0x201b8u32,
            TlvType::TransHeaders => 0x101b9u32,
            TlvType::TransGroup => 0x400001bau32,
            TlvType::MachineId => 0x101ccu32,
            TlvType::UUID => 0x401cdu32,
            TlvType::SessionGuid => 0x401ceu32,
            TlvType::RsaPubKey => 0x10226u32,
            TlvType::SymKeyType => 0x20227u32,
            TlvType::SymKey => 0x40228u32,
            TlvType::EncSymKey => 0x40229u32,
            TlvType::PivotId => 0x4028au32,
            TlvType::PivotStageData => 0x4028bu32,
            TlvType::PivotStageDataLen => 0x2028cu32,
            TlvType::PivotNamedPipeName => 0x1028du32,
            TlvType::StdapiComputerName => 0x10410u32,
            TlvType::StdapiOperatingSystemName => 0x10411u32,
            TlvType::StdapiUserName => 0x10412u32,
            TlvType::StdapiArchitecture => 0x10413u32,
            TlvType::StdapiLangSystem => 0x10414u32,
            TlvType::StdapiSid => 0x10415u32,
            TlvType::StdapiDomain => 0x10416u32,
            TlvType::StdapiLoggedOnUserCount => 0x20417u32,
            TlvType::StdapiLocalDateTime => 0x10418u32,
            TlvType::StdapiEnvVariable => 0x1044cu32,
            TlvType::StdapiEnvValue => 0x1044du32,
            TlvType::StdapiEnvGroup => 0x4000044eu32,
            TlvType::StdapiDirectoryPath => 0x104b0u32,
            TlvType::StdapiFileName => 0x104b1u32,
            TlvType::StdapiFilePath => 0x104b2u32,
            TlvType::StdapiFileMode => 0x104b3u32,
            TlvType::StdapiFileSize => 0x204b4u32,
            TlvType::StdapiFileShortName => 0x104b5u32,
            TlvType::StdapiFileHash => 0x404b6u32,
            TlvType::StdapiMount => 0x400004b7u32,
            TlvType::StdapiMountName => 0x104b8u32,
            TlvType::StdapiMountType => 0x204b9u32,
            TlvType::StdapiMountSpaceUser => 0x1004bau32,
            TlvType::StdapiMountSpaceTotal => 0x1004bbu32,
            TlvType::StdapiMountSpaceFree => 0x1004bcu32,
            TlvType::StdapiMountUncPath => 0x104bdu32,
            TlvType::StdapiStatBuf32 => 0x800004c4u32,
            TlvType::StdapiStatBuf => 0x800004c5u32,
            TlvType::StdapiInterfaceMtu => 0x2057au32,
            TlvType::StdapiInterfaceFlags => 0x1057bu32,
            TlvType::StdapiInterfaceIndex => 0x2057cu32,
            TlvType::StdapiSubnet => 0x4058cu32,
            TlvType::StdapiNetmask => 0x4058du32,
            TlvType::StdapiGateway => 0x4058eu32,
            TlvType::StdapiNetworkRoute => 0x4000058fu32,
            TlvType::StdapiIpPrefix => 0x20590u32,
            TlvType::StdapiArpEntry => 0x40000591u32,
            TlvType::StdapiIp => 0x40596u32,
            TlvType::StdapiMacAddr => 0x40597u32,
            TlvType::StdapiMacName => 0x10598u32,
            TlvType::StdapiNetworkInterface => 0x40000599u32,
            TlvType::StdapiIp6Scope => 0x4059au32,
            TlvType::StdapiSubnetString => 0x105a0u32,
            TlvType::StdapiNetmaskString => 0x105a1u32,
            TlvType::StdapiGatewayString => 0x105a2u32,
            TlvType::StdapiRouteMetric => 0x205a3u32,
            TlvType::StdapiAddrType => 0x205a4u32,
            TlvType::StdapiProxyCfgAutodetect => 0x805a5u32,
            TlvType::StdapiProxyCfgAutoConfigUrL => 0x105a6u32,
            TlvType::StdapiProxyCfgProxy => 0x105a7u32,
            TlvType::StdapiProxyCfgProxyBypass => 0x105a8u32,
            TlvType::StdapiPeerHost => 0x105dcu32,
            TlvType::StdapiPeerPort => 0x205ddu32,
            TlvType::StdapiLocalHost => 0x105deu32,
            TlvType::StdapiLocalPort => 0x205dfu32,
            TlvType::StdapiConnectRetries => 0x205e0u32,
            TlvType::StdapiNetstatEntry => 0x400005e1u32,
            TlvType::StdapiPeerHostRaw => 0x405e2u32,
            TlvType::StdapiLocalHostRaw => 0x405e3u32,
            TlvType::StdapiShutdownHow => 0x205fau32,
            TlvType::StdapiProcessId => 0x208fcu32,
            TlvType::StdapiProcessName => 0x108fdu32,
            TlvType::StdapiProcessPath => 0x108feu32,
            TlvType::StdapiProcessGroup => 0x400008ffu32,
            TlvType::StdapiProcessFlags => 0x20900u32,
            TlvType::StdapiProcessArguments => 0x10901u32,
            TlvType::StdapiProcessArch => 0x20902u32,
            TlvType::StdapiProcessParentProcessId => 0x20903u32,
            TlvType::StdapiProcessSession => 0x20904u32,
            TlvType::StdapiPowerFlags => 0x21004u32,
            TlvType::StdapiPowerReason => 0x21005u32,
        }
    }

    /// Looks a 32-bit wire value up in the closed taxonomy.
    pub fn from_code(c: u32) -> (r: Option<TlvType>)
        ensures
            r == Self::spec_from_code(c),
    {
        match c {
            0x0 => Some(TlvType::Any),
            0x10001 => Some(TlvType::Method),
            0x10002 => Some(TlvType::RequestId),
            0x40000003 => Some(TlvType::Exception),
            0x20004 => Some(TlvType::ResultCode),
            0x1000a => Some(TlvType::Str),
            0x2000b => Some(TlvType::Uint),
            0x8000c => Some(TlvType::Bool),
            0x20019 => Some(TlvType::Length),
            0x4001a => Some(TlvType::Data),
            0x2001b => Some(TlvType::Flags),
            0x20032 => Some(TlvType::ChannelId),
            0x10033 => Some(TlvType::ChannelType),
            0x40034 => Some(TlvType::ChannelData),
            0x40000035 => Some(TlvType::ChannelDataGroup),
            0x20036 => Some(TlvType::ChannelClass),
            0x20037 => Some(TlvType::ChannelParentId),
            0x20046 => Some(TlvType::SeekWhence),
            0x20047 => Some(TlvType::SeekOffset),
            0x20048 => Some(TlvType::SeekPos),
            0x2012c => Some(TlvType::ExceptionCode),
            0x1012d => Some(TlvType::ExceptionString),
            0x10190 => Some(TlvType::LibraryPath),
            0x10191 => Some(TlvType::TargetPath),
            0x20192 => Some(TlvType::MigratePid),
            0x20193 => Some(TlvType::MigratePayloadLen),
            0x10194 => Some(TlvType::MigratePayload),
            0x20195 => Some(TlvType::MigrateArch),
            0x20197 => Some(TlvType::MigrateBaseAddr),
            0x20198 => Some(TlvType::MigrateEntryPoint),
            0x20199 => Some(TlvType::MigrateSocketPath),
            0x2019a => Some(TlvType::MigrateStubLen),
            0x2019b => Some(TlvType::MigrateStub),
            0x201ae => Some(TlvType::TransType),
            0x101af => Some(TlvType::TransUrl),
            0x101b0 => Some(TlvType::TransUa),
            0x201b1 => Some(TlvType::TransCommTimeout),
            0x201b2 => Some(TlvType::TransSessExp),
            0x401b3 => Some(TlvType::TransCertHash),
            0x101b4 => Some(TlvType::TransProxyHost),
            0x101b5 => Some(TlvType::TransProxyUser),
            0x101b6 => Some(TlvType::TransProxyPass),
            0x201b7 => Some(TlvType::TransRetryTotal),
            0x201b8 => Some(TlvType::TransRetryWait),
            0x101b9 => Some(TlvType::TransHeaders),
            0x400001ba => Some(TlvType::TransGroup),
            0x101cc => Some(TlvType::MachineId),
            0x401cd => Some(TlvType::UUID),
            0x401ce => Some(TlvType::SessionGuid),
            0x10226 => Some(TlvType::RsaPubKey),
            0x20227 => Some(TlvType::SymKeyType),
            0x40228 => Some(TlvType::SymKey),
            0x40229 => Some(TlvType::EncSymKey),
            0x4028a => Some(TlvType::PivotId),
            0x4028b => Some(TlvType::PivotStageData),
            0x2028c => Some(TlvType::PivotStageDataLen),
            0x1028d => Some(TlvType::PivotNamedPipeName),
            0x10410 => Some(TlvType::StdapiComputerName),
            0x10411 => Some(TlvType::StdapiOperatingSystemName),
            0x10412 => Some(TlvType::StdapiUserName),
            0x10413 => Some(TlvType::StdapiArchitecture),
            0x10414 => Some(TlvType::StdapiLangSystem),
            0x10415 => Some(TlvType::StdapiSid),
            0x10416 => Some(TlvType::StdapiDomain),
            0x20417 => Some(TlvType::StdapiLoggedOnUserCount),
            0x10418 => Some(TlvType::StdapiLocalDateTime),
            0x1044c => Some(TlvType::StdapiEnvVariable),
            0x1044d => Some(TlvType::StdapiEnvValue),
            0x4000044e => Some(TlvType::StdapiEnvGroup),
            0x104b0 => Some(TlvType::StdapiDirectoryPath),
            0x104b1 => Some(TlvType::StdapiFileName),
            0x104b2 => Some(TlvType::StdapiFilePath),
            0x104b3 => Some(TlvType::StdapiFileMode),
            0x204b4 => Some(TlvType::StdapiFileSize),
            0x104b5 => Some(TlvType::StdapiFileShortName),
            0x404b6 => Some(TlvType::StdapiFileHash),
            0x400004b7 => Some(TlvType::StdapiMount),
            0x104b8 => Some(TlvType::StdapiMountName),
            0x204b9 => Some(TlvType::StdapiMountType),
            0x1004ba => Some(TlvType::StdapiMountSpaceUser),
            0x1004bb => Some(TlvType::StdapiMountSpaceTotal),
            0x1004bc => Some(TlvType::StdapiMountSpaceFree),
            0x104bd => Some(TlvType::StdapiMountUncPath),
            0x800004c4 => Some(TlvType::StdapiStatBuf32),
            0x800004c5 => Some(TlvType::StdapiStatBuf),
            0x2057a => Some(TlvType::StdapiInterfaceMtu),
            0x1057b => Some(TlvType::StdapiInterfaceFlags),
            0x2057c => Some(TlvType::StdapiInterfaceIndex),
            0x4058c => Some(TlvType::StdapiSubnet),
            0x4058d => Some(TlvType::StdapiNetmask),
            0x4058e => Some(TlvType::StdapiGateway),
            0x4000058f => Some(TlvType::StdapiNetworkRoute),
            0x20590 => Some(TlvType::StdapiIpPrefix),
            0x40000591 => Some(TlvType::StdapiArpEntry),
            0x40596 => Some(TlvType::StdapiIp),
            0x40597 => Some(TlvType::StdapiMacAddr),
            0x10598 => Some(TlvType::StdapiMacName),
            0x40000599 => Some(TlvType::StdapiNetworkInterface),
            0x4059a => Some(TlvType::StdapiIp6Scope),
            0x105a0 => Some(TlvType::StdapiSubnetString),
            0x105a1 => Some(TlvType::StdapiNetmaskString),
            0x105a2 => Some(TlvType::StdapiGatewayString),
            0x205a3 => Some(TlvType::StdapiRouteMetric),
            0x205a4 => Some(TlvType::StdapiAddrType),
            0x805a5 => Some(TlvType::StdapiProxyCfgAutodetect),
            0x105a6 => Some(TlvType::StdapiProxyCfgAutoConfigUrL),
            0x105a7 => Some(TlvType::StdapiProxyCfgProxy),
            0x105a8 => Some(TlvType::StdapiProxyCfgProxyBypass),
            0x105dc => Some(TlvType::StdapiPeerHost),
            0x205dd => Some(TlvType::StdapiPeerPort),
            0x105de => Some(TlvType::StdapiLocalHost),
            0x205df => Some(TlvType::StdapiLocalPort),
            0x205e0 => Some(TlvType::StdapiConnectRetries),
            0x400005e1 => Some(TlvType::StdapiNetstatEntry),
            0x405e2 => Some(TlvType::StdapiPeerHostRaw),
            0x405e3 => Some(TlvType::StdapiLocalHostRaw),
            0x205fa => Some(TlvType::StdapiShutdownHow),
            0x208fc => Some(TlvType::StdapiProcessId),
            0x108fd => Some(TlvType::StdapiProcessName),
            0x108fe => Some(TlvType::StdapiProcessPath),
            0x400008ff => Some(TlvType::StdapiProcessGroup),
            0x20900 => Some(TlvType::StdapiProcessFlags),
            0x10901 => Some(TlvType::StdapiProcessArguments),
            0x20902 => Some(TlvType::StdapiProcessArch),
            0x20903 => Some(TlvType::StdapiProcessParentProcessId),
            0x20904 => Some(TlvType::StdapiProcessSession),
            0x21004 => Some(TlvType::StdapiPowerFlags),
            0x21005 => Some(TlvType::StdapiPowerReason),
            _ => None,
        }
    }

    /// Derives the value-kind this field identifier is bound to.
    pub fn to_meta_type(&self) -> (m: MetaType)
        ensures
            m == self.spec_meta(),
    {
        match self {
            TlvType::Any => MetaType::NoneKind,
            TlvType::Method => MetaType::Str,
            TlvType::RequestId => MetaType::Str,
            TlvType::Exception => MetaType::Group,
            TlvType::ResultCode => MetaType::Uint,
            TlvType::Str => MetaType::Str,
            TlvType::Uint => MetaType::Uint,
            TlvType::Bool => MetaType::Bool,
            TlvType::Length => MetaType::Uint,
            TlvType::Data => MetaType::Raw,
            TlvType::Flags => MetaType::Uint,
            TlvType::ChannelId => MetaType::Uint,
            TlvType::ChannelType => MetaType::Str,
            TlvType::ChannelData => MetaType::Raw,
            TlvType::ChannelDataGroup => MetaType::Group,
            TlvType::ChannelClass => MetaType::Uint,
            TlvType::ChannelParentId => MetaType::Uint,
            TlvType::SeekWhence => MetaType::Uint,
            TlvType::SeekOffset => MetaType::Uint,
            TlvType::SeekPos => MetaType::Uint,
            TlvType::ExceptionCode => MetaType::Uint,
            TlvType::ExceptionString => MetaType::Str,
            TlvType::LibraryPath => MetaType::Str,
            TlvType::TargetPath => MetaType::Str,
            TlvType::MigratePid => MetaType::Uint,
            TlvType::MigratePayloadLen => MetaType::Uint,
            TlvType::MigratePayload => MetaType::Str,
            TlvType::MigrateArch => MetaType::Uint,
            TlvType::MigrateBaseAddr => MetaType::Uint,
            TlvType::MigrateEntryPoint => MetaType::Uint,
            TlvType::MigrateSocketPath => MetaType::Uint,
            TlvType::MigrateStubLen => MetaType::Uint,
            TlvType::MigrateStub => MetaType::Uint,
            TlvType::TransType => MetaType::Uint,
            TlvType::TransUrl => MetaType::Str,
            TlvType::TransUa => MetaType::Str,
            TlvType::TransCommTimeout => MetaType::Uint,
            TlvType::TransSessExp => MetaType::Uint,
            TlvType::TransCertHash => MetaType::Raw,
            TlvType::TransProxyHost => MetaType::Str,
            TlvType::TransProxyUser => MetaType::Str,
            TlvType::TransProxyPass => MetaType::Str,
            TlvType::TransRetryTotal => MetaType::Uint,
            TlvType::TransRetryWait => MetaType::Uint,
            TlvType::TransHeaders => MetaType::Str,
            TlvType::TransGroup => MetaType::Group,
            TlvType::MachineId => MetaType::Str,
            TlvType::UUID => MetaType::Raw,
            TlvType::SessionGuid => MetaType::Raw,
            TlvType::RsaPubKey => MetaType::Str,
            TlvType::SymKeyType => MetaType::Uint,
            TlvType::SymKey => MetaType::Raw,
            TlvType::EncSymKey => MetaType::Raw,
            TlvType::PivotId => MetaType::Raw,
            TlvType::PivotStageData => MetaType::Raw,
            TlvType::PivotStageDataLen => MetaType::Uint,
            TlvType::PivotNamedPipeName => MetaType::Str,
            TlvType::StdapiComputerName => MetaType::Str,
            TlvType::StdapiOperatingSystemName => MetaType::Str,
            TlvType::StdapiUserName => MetaType::Str,
            TlvType::StdapiArchitecture => MetaType::Str,
            TlvType::StdapiLangSystem => MetaType::Str,
            TlvType::StdapiSid => MetaType::Str,
            TlvType::StdapiDomain => MetaType::Str,
            TlvType::StdapiLoggedOnUserCount => MetaType::Uint,
            TlvType::StdapiLocalDateTime => MetaType::Str,
            TlvType::StdapiEnvVariable => MetaType::Str,
            TlvType::StdapiEnvValue => MetaType::Str,
            TlvType::StdapiEnvGroup => MetaType::Group,
            TlvType::StdapiDirectoryPath => MetaType::Str,
            TlvType::StdapiFileName => MetaType::Str,
            TlvType::StdapiFilePath => MetaType::Str,
            TlvType::StdapiFileMode => MetaType::Str,
            TlvType::StdapiFileSize => MetaType::Uint,
            TlvType::StdapiFileShortName => MetaType::Str,
            TlvType::StdapiFileHash => MetaType::Raw,
            TlvType::StdapiMount => MetaType::Group,
            TlvType::StdapiMountName => MetaType::Str,
            TlvType::StdapiMountType => MetaType::Uint,
            TlvType::StdapiMountSpaceUser => MetaType::Qword,
            TlvType::StdapiMountSpaceTotal => MetaType::Qword,
            TlvType::StdapiMountSpaceFree => MetaType::Qword,
            TlvType::StdapiMountUncPath => MetaType::Str,
            TlvType::StdapiStatBuf32 => MetaType::Complex,
            TlvType::StdapiStatBuf => MetaType::Complex,
            TlvType::StdapiInterfaceMtu => MetaType::Uint,
            TlvType::StdapiInterfaceFlags => MetaType::Str,
            TlvType::StdapiInterfaceIndex => MetaType::Uint,
            TlvType::StdapiSubnet => MetaType::Raw,
            TlvType::StdapiNetmask => MetaType::Raw,
            TlvType::StdapiGateway => MetaType::Raw,
            TlvType::StdapiNetworkRoute => MetaType::Group,
            TlvType::StdapiIpPrefix => MetaType::Uint,
            TlvType::StdapiArpEntry => MetaType::Group,
            TlvType::StdapiIp => MetaType::Raw,
            TlvType::StdapiMacAddr => MetaType::Raw,
            TlvType::StdapiMacName => MetaType::Str,
            TlvType::StdapiNetworkInterface => MetaType::Group,
            TlvType::StdapiIp6Scope => MetaType::Raw,
            TlvType::StdapiSubnetString => MetaType::Str,
            TlvType::StdapiNetmaskString => MetaType::Str,
            TlvType::StdapiGatewayString => MetaType::Str,
            TlvType::StdapiRouteMetric => MetaType::Uint,
            TlvType::StdapiAddrType => MetaType::Uint,
            TlvType::StdapiProxyCfgAutodetect => MetaType::Bool,
            TlvType::StdapiProxyCfgAutoConfigUrL => MetaType::Str,
            TlvType::StdapiProxyCfgProxy => MetaType::Str,
            TlvType::StdapiProxyCfgProxyBypass => MetaType::Str,
            TlvType::StdapiPeerHost => MetaType::Str,
            TlvType::StdapiPeerPort => MetaType::Uint,
            TlvType::StdapiLocalHost => MetaType::Str,
            TlvType::StdapiLocalPort => MetaType::Uint,
            TlvType::StdapiConnectRetries => MetaType::Uint,
            TlvType::StdapiNetstatEntry => MetaType::Group,
            TlvType::StdapiPeerHostRaw => MetaType::Raw,
            TlvType::StdapiLocalHostRaw => MetaType::Raw,
            TlvType::StdapiShutdownHow => MetaType::Uint,
            TlvType::StdapiProcessId => MetaType::Uint,
            TlvType::StdapiProcessName => MetaType::Str,
            TlvType::StdapiProcessPath => MetaType::Str,
            TlvType::StdapiProcessGroup => MetaType::Group,
            TlvType::StdapiProcessFlags => MetaType::Uint,
            TlvType::StdapiProcessArguments => MetaType::Str,
            TlvType::StdapiProcessArch => MetaType::Uint,
            TlvType::StdapiProcessParentProcessId => MetaType::Uint,
            TlvType::StdapiProcessSession => MetaType::Uint,
            TlvType::StdapiPowerFlags => MetaType::Uint,
            TlvType::StdapiPowerReason => MetaType::Uint,
        }
    }
}

/// Every field identifier is recovered exactly by looking its own wire value
/// up in the taxonomy: the identifier-to-value binding is injective.
pub proof fn lemma_from_code_of_code(t: TlvType)
    ensures
        TlvType::spec_from_code(t.code()) == Some(t),
{
}


} // verus!
