//! Error values of the library and the messages they render.
//!
//! Every error kind is a plain record of what went wrong; its message is a
//! fixed sentence with the record's fields put in, and an optional Windows
//! error code rendered as `0x` and eight uppercase hexadecimal digits.

use vstd::prelude::*;

use crate::text::{dec, hex_code, push_dec, push_hex_code, str_to_string};

verus! {

/// Windows API error with optional context.
///
/// The underlying error is held as its code and its rendered text.
#[derive(Debug)]
pub struct WindowsApiError {
    /// Code of the underlying Windows error.
    pub error_code: i32,
    /// Rendered text of the underlying Windows error.
    pub inner: String,
    /// Optional context about what operation failed.
    pub context: Option<String>,
}

impl WindowsApiError {
    /// Create a new Windows API error.
    pub fn new(error_code: i32, inner: &str) -> (r: Self)
        ensures
            r.error_code == error_code,
            r.inner@ == inner@,
            r.context is None,
    {
        WindowsApiError { error_code, inner: str_to_string(inner), context: None }
    }

    /// Create a Windows API error with context.
    pub fn with_context(error_code: i32, inner: &str, context: &str) -> (r: Self)
        ensures
            r.error_code == error_code,
            r.inner@ == inner@,
            r.context matches Some(v) && v@ == context@,
    {
        WindowsApiError {
            error_code,
            inner: str_to_string(inner),
            context: Some(str_to_string(context)),
        }
    }

    /// Get the Windows error code.
    pub fn code(&self) -> (r: i32)
        ensures
            r == self.error_code,
    {
        self.error_code
    }

    /// The rendered message of this error.
    pub open spec fn message_text(&self) -> Seq<char> {
        match self.context {
            Some(context) => "Windows API error in "@ + context@ + ": "@ + self.inner@,
            None => "Windows API error: "@ + self.inner@,
        }
    }

    /// Renders the message of this error.
    pub fn to_string(&self) -> (r: String)
        ensures
            r@ == self.message_text(),
    {
        match &self.context {
            Some(context) => {
                let mut s = str_to_string("Windows API error in ");
                s.append(context.as_str());
                s.append(": ");
                s.append(self.inner.as_str());
                s
            },
            None => {
                let mut s = str_to_string("Windows API error: ");
                s.append(self.inner.as_str());
                s
            },
        }
    }
}

/// Main error type of the library.
#[derive(Debug)]
pub enum Error {
    /// A Windows API error occurred.
    WindowsApi(WindowsApiError),
    /// Access was denied (insufficient permissions).
    AccessDenied(AccessDeniedError),
    /// The requested resource was not found.
    NotFound(NotFoundError),
    /// An invalid parameter was provided.
    InvalidParameter(InvalidParameterError),
    /// A registry-specific error.
    Registry(RegistryError),
    /// A process-specific error.
    Process(ProcessError),
    /// A service-specific error.
    Service(ServiceError),
    /// A thread-specific error.
    Thread(ThreadError),
    /// An event log-specific error.
    EventLog(EventLogError),
    /// An ETW-specific error.
    Etw(EtwError),
    /// A mitigation-specific error.
    Mitigation(MitigationError),
    /// A proxy-specific error.
    Proxy(ProxyError),
    /// A security/permissions-specific error.
    Security(SecurityError),
    /// A file operation error.
    FileOperation(FileOperationError),
    /// A pipe operation error.
    Pipe(PipeError),
    /// A generic error with a message.
    Other(OtherError),
}

impl Error {
    /// The rendered message of this error.
    pub open spec fn message_text(&self) -> Seq<char> {
        match self {
            Error::WindowsApi(e) => e.message_text(),
            Error::AccessDenied(e) => e.message_text(),
            Error::NotFound(e) => e.message_text(),
            Error::InvalidParameter(e) => e.message_text(),
            Error::Registry(e) => e.message_text(),
            Error::Process(e) => e.message_text(),
            Error::Service(e) => e.message_text(),
            Error::Thread(e) => e.message_text(),
            Error::EventLog(e) => e.message_text(),
            Error::Etw(e) => e.message_text(),
            Error::Mitigation(e) => e.message_text(),
            Error::Proxy(e) => e.message_text(),
            Error::Security(e) => e.message_text(),
            Error::FileOperation(e) => e.message_text(),
            Error::Pipe(e) => e.message_text(),
            Error::Other(e) => e.message_text(),
        }
    }

    /// Renders the message of this error.
    pub fn to_string(&self) -> (r: String)
        ensures
            r@ == self.message_text(),
    {
        match self {
            Error::WindowsApi(e) => e.to_string(),
            Error::AccessDenied(e) => e.to_string(),
            Error::NotFound(e) => e.to_string(),
            Error::InvalidParameter(e) => e.to_string(),
            Error::Registry(e) => e.to_string(),
            Error::Process(e) => e.to_string(),
            Error::Service(e) => e.to_string(),
            Error::Thread(e) => e.to_string(),
            Error::EventLog(e) => e.to_string(),
            Error::Etw(e) => e.to_string(),
            Error::Mitigation(e) => e.to_string(),
            Error::Proxy(e) => e.to_string(),
            Error::Security(e) => e.to_string(),
            Error::FileOperation(e) => e.to_string(),
            Error::Pipe(e) => e.to_string(),
            Error::Other(e) => e.to_string(),
        }
    }
}

/// Pipe-specific errors.
#[derive(Debug)]
pub enum PipeError {
    /// Pipe creation failed.
    Create(PipeCreateError),
    /// Pipe connection failed.
    Connect(PipeConnectError),
    /// Pipe I/O operation failed.
    Io(PipeIoError),
    /// Pipe reached timeout.
    Timeout(PipeTimeoutError),
    /// Pipe is in an invalid state for the operation.
    InvalidState(PipeInvalidStateError),
}

impl PipeError {
    /// The rendered message of this error.
    pub open spec fn message_text(&self) -> Seq<char> {
        match self {
            PipeError::Create(e) => e.message_text(),
            PipeError::Connect(e) => e.message_text(),
            PipeError::Io(e) => e.message_text(),
            PipeError::Timeout(e) => e.message_text(),
            PipeError::InvalidState(e) => e.message_text(),
        }
    }

    /// Renders the message of this error.
    pub fn to_string(&self) -> (r: String)
        ensures
            r@ == self.message_text(),
    {
        match self {
            PipeError::Create(e) => e.to_string(),
            PipeError::Connect(e) => e.to_string(),
            PipeError::Io(e) => e.to_string(),
            PipeError::Timeout(e) => e.to_string(),
            PipeError::InvalidState(e) => e.to_string(),
        }
    }
}

/// Security and permissions errors.
#[derive(Debug)]
pub enum SecurityError {
    /// SID parsing or encoding failed.
    SidParse(SidParseError),
    /// Permission edit validation or execution failed.
    PermissionEdit(PermissionEditError),
    /// Operation is not supported by the current backend/target.
    Unsupported(SecurityUnsupportedError),
}

impl SecurityError {
    /// The rendered message of this error.
    pub open spec fn message_text(&self) -> Seq<char> {
        match self {
            SecurityError::SidParse(e) => e.message_text(),
            SecurityError::PermissionEdit(e) => e.message_text(),
            SecurityError::Unsupported(e) => e.message_text(),
        }
    }

    /// Renders the message of this error.
    pub fn to_string(&self) -> (r: String)
        ensures
            r@ == self.message_text(),
    {
        match self {
            SecurityError::SidParse(e) => e.to_string(),
            SecurityError::PermissionEdit(e) => e.to_string(),
            SecurityError::Unsupported(e) => e.to_string(),
        }
    }
}

/// Proxy-specific errors.
#[derive(Debug)]
pub enum ProxyError {
    /// Proxy configuration is invalid.
    InvalidConfig(ProxyConfigError),
    /// Proxy discovery operation failed.
    DiscoveryFailed(ProxyConfigError),
    /// Proxy URL resolution failed.
    ResolutionFailed(ProxyResolutionError),
}

impl ProxyError {
    /// The rendered message of this error.
    pub open spec fn message_text(&self) -> Seq<char> {
        match self {
            ProxyError::InvalidConfig(e) => e.message_text(),
            ProxyError::DiscoveryFailed(e) => e.message_text(),
            ProxyError::ResolutionFailed(e) => e.message_text(),
        }
    }

    /// Renders the message of this error.
    pub fn to_string(&self) -> (r: String)
        ensures
            r@ == self.message_text(),
    {
        match self {
            ProxyError::InvalidConfig(e) => e.to_string(),
            ProxyError::DiscoveryFailed(e) => e.to_string(),
            ProxyError::ResolutionFailed(e) => e.to_string(),
        }
    }
}

/// Registry-specific errors.
#[derive(Debug)]
pub enum RegistryError {
    /// Registry key not found.
    KeyNotFound(RegistryKeyNotFoundError),
    /// Registry value not found.
    ValueNotFound(RegistryValueNotFoundError),
    /// Invalid value type.
    InvalidType(RegistryInvalidTypeError),
    /// Error converting value.
    ConversionError(RegistryConversionError),
}

impl RegistryError {
    /// The rendered message of this error.
    pub open spec fn message_text(&self) -> Seq<char> {
        match self {
            RegistryError::KeyNotFound(e) => e.message_text(),
            RegistryError::ValueNotFound(e) => e.message_text(),
            RegistryError::InvalidType(e) => e.message_text(),
            RegistryError::ConversionError(e) => e.message_text(),
        }
    }

    /// Renders the message of this error.
    pub fn to_string(&self) -> (r: String)
        ensures
            r@ == self.message_text(),
    {
        match self {
            RegistryError::KeyNotFound(e) => e.to_string(),
            RegistryError::ValueNotFound(e) => e.to_string(),
            RegistryError::InvalidType(e) => e.to_string(),
            RegistryError::ConversionError(e) => e.to_string(),
        }
    }
}

/// Service-specific errors.
#[derive(Debug)]
pub enum ServiceError {
    /// Failed to open or use the Service Control Manager.
    ManagerError(ServiceManagerError),
    /// Service not found.
    NotFound(ServiceNotFoundError),
    /// Service operation failed.
    OperationFailed(ServiceOperationError),
    /// Service is in an invalid state for the requested operation.
    InvalidState(ServiceInvalidStateError),
}

impl ServiceError {
    /// The rendered message of this error.
    pub open spec fn message_text(&self) -> Seq<char> {
        match self {
            ServiceError::ManagerError(e) => e.message_text(),
            ServiceError::NotFound(e) => e.message_text(),
            ServiceError::OperationFailed(e) => e.message_text(),
            ServiceError::InvalidState(e) => e.message_text(),
        }
    }

    /// Renders the message of this error.
    pub fn to_string(&self) -> (r: String)
        ensures
            r@ == self.message_text(),
    {
        match self {
            ServiceError::ManagerError(e) => e.to_string(),
            ServiceError::NotFound(e) => e.to_string(),
            ServiceError::OperationFailed(e) => e.to_string(),
            ServiceError::InvalidState(e) => e.to_string(),
        }
    }
}

/// Process-specific errors.
#[derive(Debug)]
pub enum ProcessError {
    /// Process not found.
    NotFound(ProcessNotFoundError),
    /// Process already terminated.
    AlreadyTerminated(ProcessTerminatedError),
    /// Failed to open process.
    OpenFailed(ProcessOpenError),
    /// Failed to spawn process.
    SpawnFailed(ProcessSpawnError),
    /// Invalid process ID.
    InvalidProcessId,
}

impl ProcessError {
    /// The rendered message of this error.
    pub open spec fn message_text(&self) -> Seq<char> {
        match self {
            ProcessError::NotFound(e) => e.message_text(),
            ProcessError::AlreadyTerminated(e) => e.message_text(),
            ProcessError::OpenFailed(e) => e.message_text(),
            ProcessError::SpawnFailed(e) => e.message_text(),
            ProcessError::InvalidProcessId => "Invalid process ID"@,
        }
    }

    /// Renders the message of this error.
    pub fn to_string(&self) -> (r: String)
        ensures
            r@ == self.message_text(),
    {
        match self {
            ProcessError::NotFound(e) => e.to_string(),
            ProcessError::AlreadyTerminated(e) => e.to_string(),
            ProcessError::OpenFailed(e) => e.to_string(),
            ProcessError::SpawnFailed(e) => e.to_string(),
            ProcessError::InvalidProcessId => str_to_string("Invalid process ID"),
        }
    }
}

/// Thread-specific errors.
#[derive(Debug)]
pub enum ThreadError {
    /// Thread not found.
    NotFound(ThreadNotFoundError),
    /// Failed to open thread.
    OpenFailed(ThreadOpenError),
}

impl ThreadError {
    /// The rendered message of this error.
    pub open spec fn message_text(&self) -> Seq<char> {
        match self {
            ThreadError::NotFound(e) => e.message_text(),
            ThreadError::OpenFailed(e) => e.message_text(),
        }
    }

    /// Renders the message of this error.
    pub fn to_string(&self) -> (r: String)
        ensures
            r@ == self.message_text(),
    {
        match self {
            ThreadError::NotFound(e) => e.to_string(),
            ThreadError::OpenFailed(e) => e.to_string(),
        }
    }
}

/// Event log-specific errors.
#[derive(Debug)]
pub enum EventLogError {
    /// Event log not found.
    LogNotFound(EventLogNotFoundError),
    /// Failed to query events.
    QueryFailed(EventLogQueryError),
    /// Failed to parse event.
    ParseFailed(EventLogParseError),
}

impl EventLogError {
    /// The rendered message of this error.
    pub open spec fn message_text(&self) -> Seq<char> {
        match self {
            EventLogError::LogNotFound(e) => e.message_text(),
            EventLogError::QueryFailed(e) => e.message_text(),
            EventLogError::ParseFailed(e) => e.message_text(),
        }
    }

    /// Renders the message of this error.
    pub fn to_string(&self) -> (r: String)
        ensures
            r@ == self.message_text(),
    {
        match self {
            EventLogError::LogNotFound(e) => e.to_string(),
            EventLogError::QueryFailed(e) => e.to_string(),
            EventLogError::ParseFailed(e) => e.to_string(),
        }
    }
}

/// ETW-specific errors.
#[derive(Debug)]
pub enum EtwError {
    /// Failed to start ETW session.
    SessionStartFailed(EtwSessionError),
    /// Failed to enable provider.
    ProviderEnableFailed(EtwProviderError),
    /// Failed to consume events.
    ConsumeFailed(EtwConsumeError),
}

impl EtwError {
    /// The rendered message of this error.
    pub open spec fn message_text(&self) -> Seq<char> {
        match self {
            EtwError::SessionStartFailed(e) => e.message_text(),
            EtwError::ProviderEnableFailed(e) => e.message_text(),
            EtwError::ConsumeFailed(e) => e.message_text(),
        }
    }

    /// Renders the message of this error.
    pub fn to_string(&self) -> (r: String)
        ensures
            r@ == self.message_text(),
    {
        match self {
            EtwError::SessionStartFailed(e) => e.to_string(),
            EtwError::ProviderEnableFailed(e) => e.to_string(),
            EtwError::ConsumeFailed(e) => e.to_string(),
        }
    }
}

/// Mitigation-specific errors.
#[derive(Debug)]
pub enum MitigationError {
    /// Applying one mitigation policy failed.
    ApplyFailed(MitigationOperationError),
    /// Querying one mitigation policy failed.
    QueryFailed(MitigationOperationError),
}

impl MitigationError {
    /// The rendered message of this error.
    pub open spec fn message_text(&self) -> Seq<char> {
        match self {
            MitigationError::ApplyFailed(e) => e.message_text(),
            MitigationError::QueryFailed(e) => e.message_text(),
        }
    }

    /// Renders the message of this error.
    pub fn to_string(&self) -> (r: String)
        ensures
            r@ == self.message_text(),
    {
        match self {
            MitigationError::ApplyFailed(e) => e.to_string(),
            MitigationError::QueryFailed(e) => e.to_string(),
        }
    }
}
/// Access denied error.
#[derive(Debug)]
pub struct AccessDeniedError {
    /// What resource was being accessed.
    pub resource: String,
    /// What operation was attempted.
    pub operation: String,
    /// Optional additional context.
    pub reason: Option<String>,
}

impl AccessDeniedError {
    /// Create a new access denied error.
    pub fn new(resource: &str, operation: &str) -> (r: Self)
        ensures
            r.resource@ == resource@,
            r.operation@ == operation@,
            r.reason is None,
    {
        AccessDeniedError {
            resource: str_to_string(resource),
            operation: str_to_string(operation),
            reason: None,
        }
    }

    /// Create an access denied error with a reason.
    pub fn with_reason(resource: &str, operation: &str, reason: &str) -> (r: Self)
        ensures
            r.resource@ == resource@,
            r.operation@ == operation@,
            r.reason matches Some(v) && v@ == reason@,
    {
        AccessDeniedError {
            resource: str_to_string(resource),
            operation: str_to_string(operation),
            reason: Some(str_to_string(reason)),
        }
    }

    /// The rendered message of this error.
    pub open spec fn message_text(&self) -> Seq<char> {
        match self.reason {
            Some(reason) => "Access denied: cannot "@ + self.operation@ + " '"@ + self.resource@ + "' ("@ + reason@ + ")"@,
            None => "Access denied: cannot "@ + self.operation@ + " '"@ + self.resource@ + "'"@,
        }
    }

    /// Renders the message of this error.
    pub fn to_string(&self) -> (r: String)
        ensures
            r@ == self.message_text(),
    {
        match &self.reason {
            Some(reason) => {
                let mut s = str_to_string("Access denied: cannot ");
                s.append(self.operation.as_str());
                s.append(" '");
                s.append(self.resource.as_str());
                s.append("' (");
                s.append(reason.as_str());
                s.append(")");
                s
            },
            None => {
                let mut s = str_to_string("Access denied: cannot ");
                s.append(self.operation.as_str());
                s.append(" '");
                s.append(self.resource.as_str());
                s.append("'");
                s
            },
        }
    }
}

/// Resource not found error.
#[derive(Debug)]
pub struct NotFoundError {
    /// Type of resource that was not found.
    pub resource_type: String,
    /// Identifier of the resource.
    pub identifier: String,
}

impl NotFoundError {
    /// Create a new not found error.
    pub fn new(resource_type: &str, identifier: &str) -> (r: Self)
        ensures
            r.resource_type@ == resource_type@,
            r.identifier@ == identifier@,
    {
        NotFoundError {
            resource_type: str_to_string(resource_type),
            identifier: str_to_string(identifier),
        }
    }

    /// The rendered message of this error.
    pub open spec fn message_text(&self) -> Seq<char> {
        self.resource_type@ + " not found: "@ + self.identifier@
    }

    /// Renders the message of this error.
    pub fn to_string(&self) -> (r: String)
        ensures
            r@ == self.message_text(),
    {
        let mut s = str_to_string(self.resource_type.as_str());
        s.append(" not found: ");
        s.append(self.identifier.as_str());
        s
    }
}

/// Invalid parameter error.
#[derive(Debug)]
pub struct InvalidParameterError {
    /// Name of the parameter.
    pub parameter: String,
    /// Why the parameter is invalid.
    pub reason: String,
}

impl InvalidParameterError {
    /// Create a new invalid parameter error.
    pub fn new(parameter: &str, reason: &str) -> (r: Self)
        ensures
            r.parameter@ == parameter@,
            r.reason@ == reason@,
    {
        InvalidParameterError {
            parameter: str_to_string(parameter),
            reason: str_to_string(reason),
        }
    }

    /// The rendered message of this error.
    pub open spec fn message_text(&self) -> Seq<char> {
        "Invalid parameter '"@ + self.parameter@ + "': "@ + self.reason@
    }

    /// Renders the message of this error.
    pub fn to_string(&self) -> (r: String)
        ensures
            r@ == self.message_text(),
    {
        let mut s = str_to_string("Invalid parameter '");
        s.append(self.parameter.as_str());
        s.append("': ");
        s.append(self.reason.as_str());
        s
    }
}

/// File operation error.
#[derive(Debug)]
pub struct FileOperationError {
    /// The file path.
    pub path: String,
    /// The operation that failed.
    pub operation: String,
    /// Windows error code if available.
    pub error_code: Option<i32>,
}

impl FileOperationError {
    /// Create a new file operation error.
    pub fn new(path: &str, operation: &str) -> (r: Self)
        ensures
            r.path@ == path@,
            r.operation@ == operation@,
            r.error_code is None,
    {
        FileOperationError {
            path: str_to_string(path),
            operation: str_to_string(operation),
            error_code: None,
        }
    }

    /// Create a file operation error with an error code.
    pub fn with_code(path: &str, operation: &str, error_code: i32) -> (r: Self)
        ensures
            r.path@ == path@,
            r.operation@ == operation@,
            r.error_code == Some(error_code),
    {
        FileOperationError {
            path: str_to_string(path),
            operation: str_to_string(operation),
            error_code: Some(error_code),
        }
    }

    /// The rendered message of this error.
    pub open spec fn message_text(&self) -> Seq<char> {
        match self.error_code {
            Some(error_code) => "File operation '"@ + self.operation@ + "' failed on '"@ + self.path@ + "' (error code: "@ + hex_code(error_code) + ")"@,
            None => "File operation '"@ + self.operation@ + "' failed on '"@ + self.path@ + "'"@,
        }
    }

    /// Renders the message of this error.
    pub fn to_string(&self) -> (r: String)
        ensures
            r@ == self.message_text(),
    {
        match self.error_code {
            Some(error_code) => {
                let mut s = str_to_string("File operation '");
                s.append(self.operation.as_str());
                s.append("' failed on '");
                s.append(self.path.as_str());
                s.append("' (error code: ");
                push_hex_code(&mut s, error_code);
                s.append(")");
                s
            },
            None => {
                let mut s = str_to_string("File operation '");
                s.append(self.operation.as_str());
                s.append("' failed on '");
                s.append(self.path.as_str());
                s.append("'");
                s
            },
        }
    }
}

/// Pipe creation error.
#[derive(Debug)]
pub struct PipeCreateError {
    /// Pipe name used during creation.
    pub pipe_name: String,
    /// Operation description.
    pub operation: String,
    /// Optional Windows error code.
    pub error_code: Option<i32>,
}

impl PipeCreateError {
    /// Create a new pipe creation error.
    pub fn new(pipe_name: &str, operation: &str) -> (r: Self)
        ensures
            r.pipe_name@ == pipe_name@,
            r.operation@ == operation@,
            r.error_code is None,
    {
        PipeCreateError {
            pipe_name: str_to_string(pipe_name),
            operation: str_to_string(operation),
            error_code: None,
        }
    }

    /// Create a new pipe creation error with an error code.
    pub fn with_code(pipe_name: &str, operation: &str, error_code: i32) -> (r: Self)
        ensures
            r.pipe_name@ == pipe_name@,
            r.operation@ == operation@,
            r.error_code == Some(error_code),
    {
        PipeCreateError {
            pipe_name: str_to_string(pipe_name),
            operation: str_to_string(operation),
            error_code: Some(error_code),
        }
    }

    /// The rendered message of this error.
    pub open spec fn message_text(&self) -> Seq<char> {
        match self.error_code {
            Some(error_code) => "Pipe creation '"@ + self.operation@ + "' failed for '"@ + self.pipe_name@ + "' (error code: "@ + hex_code(error_code) + ")"@,
            None => "Pipe creation '"@ + self.operation@ + "' failed for '"@ + self.pipe_name@ + "'"@,
        }
    }

    /// Renders the message of this error.
    pub fn to_string(&self) -> (r: String)
        ensures
            r@ == self.message_text(),
    {
        match self.error_code {
            Some(error_code) => {
                let mut s = str_to_string("Pipe creation '");
                s.append(self.operation.as_str());
                s.append("' failed for '");
                s.append(self.pipe_name.as_str());
                s.append("' (error code: ");
                push_hex_code(&mut s, error_code);
                s.append(")");
                s
            },
            None => {
                let mut s = str_to_string("Pipe creation '");
                s.append(self.operation.as_str());
                s.append("' failed for '");
                s.append(self.pipe_name.as_str());
                s.append("'");
                s
            },
        }
    }
}

/// Pipe connection error.
#[derive(Debug)]
pub struct PipeConnectError {
    /// Pipe name used during connection.
    pub pipe_name: String,
    /// Optional connection context.
    pub context: Option<String>,
    /// Optional Windows error code.
    pub error_code: Option<i32>,
}

impl PipeConnectError {
    /// Create a new pipe connection error.
    pub fn new(pipe_name: &str) -> (r: Self)
        ensures
            r.pipe_name@ == pipe_name@,
            r.context is None,
            r.error_code is None,
    {
        PipeConnectError {
            pipe_name: str_to_string(pipe_name),
            context: None,
            error_code: None,
        }
    }

    /// Add context to a pipe connection error.
    pub fn with_context(self, context: &str) -> (r: Self)
        ensures
            r.pipe_name == self.pipe_name,
            r.context matches Some(v) && v@ == context@,
            r.error_code == self.error_code,
    {
        PipeConnectError {
            pipe_name: self.pipe_name,
            context: Some(str_to_string(context)),
            error_code: self.error_code,
        }
    }

    /// Add a Windows error code to a pipe connection error.
    pub fn with_code(self, error_code: i32) -> (r: Self)
        ensures
            r.pipe_name == self.pipe_name,
            r.context == self.context,
            r.error_code == Some(error_code),
    {
        PipeConnectError {
            pipe_name: self.pipe_name,
            context: self.context,
            error_code: Some(error_code),
        }
    }

    /// The rendered message of this error.
    pub open spec fn message_text(&self) -> Seq<char> {
        match (self.context, self.error_code) {
            (Some(context), Some(error_code)) => "Pipe connect failed for '"@ + self.pipe_name@ + "' ("@ + context@ + ", error code: "@ + hex_code(error_code) + ")"@,
            (Some(context), None) => "Pipe connect failed for '"@ + self.pipe_name@ + "' ("@ + context@ + ")"@,
            (None, Some(error_code)) => "Pipe connect failed for '"@ + self.pipe_name@ + "' (error code: "@ + hex_code(error_code) + ")"@,
            (None, None) => "Pipe connect failed for '"@ + self.pipe_name@ + "'"@,
        }
    }

    /// Renders the message of this error.
    pub fn to_string(&self) -> (r: String)
        ensures
            r@ == self.message_text(),
    {
        match &self.context {
            Some(context) => {
                match self.error_code {
                    Some(error_code) => {
                        let mut s = str_to_string("Pipe connect failed for '");
                        s.append(self.pipe_name.as_str());
                        s.append("' (");
                        s.append(context.as_str());
                        s.append(", error code: ");
                        push_hex_code(&mut s, error_code);
                        s.append(")");
                        s
                    },
                    None => {
                        let mut s = str_to_string("Pipe connect failed for '");
                        s.append(self.pipe_name.as_str());
                        s.append("' (");
                        s.append(context.as_str());
                        s.append(")");
                        s
                    },
                }
            },
            None => {
                match self.error_code {
                    Some(error_code) => {
                        let mut s = str_to_string("Pipe connect failed for '");
                        s.append(self.pipe_name.as_str());
                        s.append("' (error code: ");
                        push_hex_code(&mut s, error_code);
                        s.append(")");
                        s
                    },
                    None => {
                        let mut s = str_to_string("Pipe connect failed for '");
                        s.append(self.pipe_name.as_str());
                        s.append("'");
                        s
                    },
                }
            },
        }
    }
}

/// Pipe I/O error.
#[derive(Debug)]
pub struct PipeIoError {
    /// Pipe name involved in I/O.
    pub pipe_name: String,
    /// I/O operation that failed.
    pub operation: String,
    /// Optional Windows error code.
    pub error_code: Option<i32>,
}

impl PipeIoError {
    /// Create a new pipe I/O error.
    pub fn new(pipe_name: &str, operation: &str) -> (r: Self)
        ensures
            r.pipe_name@ == pipe_name@,
            r.operation@ == operation@,
            r.error_code is None,
    {
        PipeIoError {
            pipe_name: str_to_string(pipe_name),
            operation: str_to_string(operation),
            error_code: None,
        }
    }

    /// Create a new pipe I/O error with an error code.
    pub fn with_code(pipe_name: &str, operation: &str, error_code: i32) -> (r: Self)
        ensures
            r.pipe_name@ == pipe_name@,
            r.operation@ == operation@,
            r.error_code == Some(error_code),
    {
        PipeIoError {
            pipe_name: str_to_string(pipe_name),
            operation: str_to_string(operation),
            error_code: Some(error_code),
        }
    }

    /// The rendered message of this error.
    pub open spec fn message_text(&self) -> Seq<char> {
        match self.error_code {
            Some(error_code) => "Pipe I/O '"@ + self.operation@ + "' failed for '"@ + self.pipe_name@ + "' (error code: "@ + hex_code(error_code) + ")"@,
            None => "Pipe I/O '"@ + self.operation@ + "' failed for '"@ + self.pipe_name@ + "'"@,
        }
    }

    /// Renders the message of this error.
    pub fn to_string(&self) -> (r: String)
        ensures
            r@ == self.message_text(),
    {
        match self.error_code {
            Some(error_code) => {
                let mut s = str_to_string("Pipe I/O '");
                s.append(self.operation.as_str());
                s.append("' failed for '");
                s.append(self.pipe_name.as_str());
                s.append("' (error code: ");
                push_hex_code(&mut s, error_code);
                s.append(")");
                s
            },
            None => {
                let mut s = str_to_string("Pipe I/O '");
                s.append(self.operation.as_str());
                s.append("' failed for '");
                s.append(self.pipe_name.as_str());
                s.append("'");
                s
            },
        }
    }
}

/// Pipe timeout error.
#[derive(Debug)]
pub struct PipeTimeoutError {
    /// Pipe name that timed out.
    pub pipe_name: String,
    /// Timeout operation.
    pub operation: String,
}

impl PipeTimeoutError {
    /// Create a new pipe timeout error.
    pub fn new(pipe_name: &str, operation: &str) -> (r: Self)
        ensures
            r.pipe_name@ == pipe_name@,
            r.operation@ == operation@,
    {
        PipeTimeoutError {
            pipe_name: str_to_string(pipe_name),
            operation: str_to_string(operation),
        }
    }

    /// The rendered message of this error.
    pub open spec fn message_text(&self) -> Seq<char> {
        "Pipe operation '"@ + self.operation@ + "' timed out for '"@ + self.pipe_name@ + "'"@
    }

    /// Renders the message of this error.
    pub fn to_string(&self) -> (r: String)
        ensures
            r@ == self.message_text(),
    {
        let mut s = str_to_string("Pipe operation '");
        s.append(self.operation.as_str());
        s.append("' timed out for '");
        s.append(self.pipe_name.as_str());
        s.append("'");
        s
    }
}

/// Pipe invalid-state error.
#[derive(Debug)]
pub struct PipeInvalidStateError {
    /// Operation attempted.
    pub operation: String,
    /// Why state is invalid.
    pub reason: String,
}

impl PipeInvalidStateError {
    /// Create a new invalid-state error for a pipe operation.
    pub fn new(operation: &str, reason: &str) -> (r: Self)
        ensures
            r.operation@ == operation@,
            r.reason@ == reason@,
    {
        PipeInvalidStateError {
            operation: str_to_string(operation),
            reason: str_to_string(reason),
        }
    }

    /// The rendered message of this error.
    pub open spec fn message_text(&self) -> Seq<char> {
        "Pipe operation '"@ + self.operation@ + "' is invalid in current state: "@ + self.reason@
    }

    /// Renders the message of this error.
    pub fn to_string(&self) -> (r: String)
        ensures
            r@ == self.message_text(),
    {
        let mut s = str_to_string("Pipe operation '");
        s.append(self.operation.as_str());
        s.append("' is invalid in current state: ");
        s.append(self.reason.as_str());
        s
    }
}

/// Generic error with a message.
#[derive(Debug)]
pub struct OtherError {
    /// Error message.
    pub message: String,
}

impl OtherError {
    /// Create a new generic error.
    pub fn new(message: &str) -> (r: Self)
        ensures
            r.message@ == message@,
    {
        OtherError {
            message: str_to_string(message),
        }
    }

    /// The rendered message of this error.
    pub open spec fn message_text(&self) -> Seq<char> {
        self.message@
    }

    /// Renders the message of this error.
    pub fn to_string(&self) -> (r: String)
        ensures
            r@ == self.message_text(),
    {
        let mut s = str_to_string(self.message.as_str());
        s
    }
}

/// SID parsing error.
#[derive(Debug)]
pub struct SidParseError {
    /// Input SID representation that failed.
    pub input: String,
    /// Why parsing failed.
    pub reason: String,
}

impl SidParseError {
    /// Create a new SID parse error.
    pub fn new(input: &str, reason: &str) -> (r: Self)
        ensures
            r.input@ == input@,
            r.reason@ == reason@,
    {
        SidParseError {
            input: str_to_string(input),
            reason: str_to_string(reason),
        }
    }

    /// The rendered message of this error.
    pub open spec fn message_text(&self) -> Seq<char> {
        "SID parse error for '"@ + self.input@ + "': "@ + self.reason@
    }

    /// Renders the message of this error.
    pub fn to_string(&self) -> (r: String)
        ensures
            r@ == self.message_text(),
    {
        let mut s = str_to_string("SID parse error for '");
        s.append(self.input.as_str());
        s.append("': ");
        s.append(self.reason.as_str());
        s
    }
}

/// Permission edit error.
#[derive(Debug)]
pub struct PermissionEditError {
    /// Operation that failed.
    pub operation: String,
    /// Why it failed.
    pub reason: String,
}

impl PermissionEditError {
    /// Create a new permission edit error.
    pub fn new(operation: &str, reason: &str) -> (r: Self)
        ensures
            r.operation@ == operation@,
            r.reason@ == reason@,
    {
        PermissionEditError {
            operation: str_to_string(operation),
            reason: str_to_string(reason),
        }
    }

    /// The rendered message of this error.
    pub open spec fn message_text(&self) -> Seq<char> {
        "Permission edit '"@ + self.operation@ + "' failed: "@ + self.reason@
    }

    /// Renders the message of this error.
    pub fn to_string(&self) -> (r: String)
        ensures
            r@ == self.message_text(),
    {
        let mut s = str_to_string("Permission edit '");
        s.append(self.operation.as_str());
        s.append("' failed: ");
        s.append(self.reason.as_str());
        s
    }
}

/// Unsupported security operation.
#[derive(Debug)]
pub struct SecurityUnsupportedError {
    /// The target/backend where operation was attempted.
    pub target: String,
    /// The unsupported operation.
    pub operation: String,
    /// Optional additional reason.
    pub reason: Option<String>,
}

impl SecurityUnsupportedError {
    /// Create a new unsupported security operation error.
    pub fn new(target: &str, operation: &str) -> (r: Self)
        ensures
            r.target@ == target@,
            r.operation@ == operation@,
            r.reason is None,
    {
        SecurityUnsupportedError {
            target: str_to_string(target),
            operation: str_to_string(operation),
            reason: None,
        }
    }

    /// Create a new unsupported security operation error with reason.
    pub fn with_reason(target: &str, operation: &str, reason: &str) -> (r: Self)
        ensures
            r.target@ == target@,
            r.operation@ == operation@,
            r.reason matches Some(v) && v@ == reason@,
    {
        SecurityUnsupportedError {
            target: str_to_string(target),
            operation: str_to_string(operation),
            reason: Some(str_to_string(reason)),
        }
    }

    /// The rendered message of this error.
    pub open spec fn message_text(&self) -> Seq<char> {
        match self.reason {
            Some(reason) => "Security operation '"@ + self.operation@ + "' is not supported for '"@ + self.target@ + "': "@ + reason@,
            None => "Security operation '"@ + self.operation@ + "' is not supported for '"@ + self.target@ + "'"@,
        }
    }

    /// Renders the message of this error.
    pub fn to_string(&self) -> (r: String)
        ensures
            r@ == self.message_text(),
    {
        match &self.reason {
            Some(reason) => {
                let mut s = str_to_string("Security operation '");
                s.append(self.operation.as_str());
                s.append("' is not supported for '");
                s.append(self.target.as_str());
                s.append("': ");
                s.append(reason.as_str());
                s
            },
            None => {
                let mut s = str_to_string("Security operation '");
                s.append(self.operation.as_str());
                s.append("' is not supported for '");
                s.append(self.target.as_str());
                s.append("'");
                s
            },
        }
    }
}

/// Invalid or unavailable proxy configuration.
#[derive(Debug)]
pub struct ProxyConfigError {
    /// Name of the relevant setting.
    pub setting: String,
    /// Reason the setting is invalid or unavailable.
    pub reason: String,
}

impl ProxyConfigError {
    /// Create a new proxy configuration error.
    pub fn new(setting: &str, reason: &str) -> (r: Self)
        ensures
            r.setting@ == setting@,
            r.reason@ == reason@,
    {
        ProxyConfigError {
            setting: str_to_string(setting),
            reason: str_to_string(reason),
        }
    }

    /// The rendered message of this error.
    pub open spec fn message_text(&self) -> Seq<char> {
        "Proxy configuration error for '"@ + self.setting@ + "': "@ + self.reason@
    }

    /// Renders the message of this error.
    pub fn to_string(&self) -> (r: String)
        ensures
            r@ == self.message_text(),
    {
        let mut s = str_to_string("Proxy configuration error for '");
        s.append(self.setting.as_str());
        s.append("': ");
        s.append(self.reason.as_str());
        s
    }
}

/// URL-specific proxy resolution error.
#[derive(Debug)]
pub struct ProxyResolutionError {
    /// URL that was being resolved.
    pub url: String,
    /// Why resolution failed.
    pub reason: String,
}

impl ProxyResolutionError {
    /// Create a new proxy resolution error.
    pub fn new(url: &str, reason: &str) -> (r: Self)
        ensures
            r.url@ == url@,
            r.reason@ == reason@,
    {
        ProxyResolutionError {
            url: str_to_string(url),
            reason: str_to_string(reason),
        }
    }

    /// The rendered message of this error.
    pub open spec fn message_text(&self) -> Seq<char> {
        "Proxy resolution failed for '"@ + self.url@ + "': "@ + self.reason@
    }

    /// Renders the message of this error.
    pub fn to_string(&self) -> (r: String)
        ensures
            r@ == self.message_text(),
    {
        let mut s = str_to_string("Proxy resolution failed for '");
        s.append(self.url.as_str());
        s.append("': ");
        s.append(self.reason.as_str());
        s
    }
}

/// Registry key not found.
#[derive(Debug)]
pub struct RegistryKeyNotFoundError {
    /// The key path that was not found.
    pub key_path: String,
    /// Windows error code.
    pub error_code: Option<i32>,
}

impl RegistryKeyNotFoundError {
    /// Create a new key not found error.
    pub fn new(key_path: &str) -> (r: Self)
        ensures
            r.key_path@ == key_path@,
            r.error_code is None,
    {
        RegistryKeyNotFoundError {
            key_path: str_to_string(key_path),
            error_code: None,
        }
    }

    /// Create a key not found error with error code.
    pub fn with_code(key_path: &str, error_code: i32) -> (r: Self)
        ensures
            r.key_path@ == key_path@,
            r.error_code == Some(error_code),
    {
        RegistryKeyNotFoundError {
            key_path: str_to_string(key_path),
            error_code: Some(error_code),
        }
    }

    /// The rendered message of this error.
    pub open spec fn message_text(&self) -> Seq<char> {
        match self.error_code {
            Some(error_code) => "Registry key not found: "@ + self.key_path@ + " (error code: "@ + hex_code(error_code) + ")"@,
            None => "Registry key not found: "@ + self.key_path@,
        }
    }

    /// Renders the message of this error.
    pub fn to_string(&self) -> (r: String)
        ensures
            r@ == self.message_text(),
    {
        match self.error_code {
            Some(error_code) => {
                let mut s = str_to_string("Registry key not found: ");
                s.append(self.key_path.as_str());
                s.append(" (error code: ");
                push_hex_code(&mut s, error_code);
                s.append(")");
                s
            },
            None => {
                let mut s = str_to_string("Registry key not found: ");
                s.append(self.key_path.as_str());
                s
            },
        }
    }
}

/// Registry value not found.
#[derive(Debug)]
pub struct RegistryValueNotFoundError {
    /// The value name that was not found.
    pub value_name: String,
    /// Optional key path for context.
    pub key_path: Option<String>,
}

impl RegistryValueNotFoundError {
    /// Create a new value not found error.
    pub fn new(value_name: &str) -> (r: Self)
        ensures
            r.value_name@ == value_name@,
            r.key_path is None,
    {
        RegistryValueNotFoundError {
            value_name: str_to_string(value_name),
            key_path: None,
        }
    }

    /// Create a value not found error with key path.
    pub fn with_key(value_name: &str, key_path: &str) -> (r: Self)
        ensures
            r.value_name@ == value_name@,
            r.key_path matches Some(v) && v@ == key_path@,
    {
        RegistryValueNotFoundError {
            value_name: str_to_string(value_name),
            key_path: Some(str_to_string(key_path)),
        }
    }

    /// The rendered message of this error.
    pub open spec fn message_text(&self) -> Seq<char> {
        match self.key_path {
            Some(key_path) => "Registry value '"@ + self.value_name@ + "' not found in key '"@ + key_path@ + "'"@,
            None => "Registry value not found: "@ + self.value_name@,
        }
    }

    /// Renders the message of this error.
    pub fn to_string(&self) -> (r: String)
        ensures
            r@ == self.message_text(),
    {
        match &self.key_path {
            Some(key_path) => {
                let mut s = str_to_string("Registry value '");
                s.append(self.value_name.as_str());
                s.append("' not found in key '");
                s.append(key_path.as_str());
                s.append("'");
                s
            },
            None => {
                let mut s = str_to_string("Registry value not found: ");
                s.append(self.value_name.as_str());
                s
            },
        }
    }
}

/// Invalid registry value type.
#[derive(Debug)]
pub struct RegistryInvalidTypeError {
    /// The expected type.
    pub expected: String,
    /// The actual type found.
    pub found: String,
    /// The value name.
    pub value_name: Option<String>,
}

impl RegistryInvalidTypeError {
    /// Create a new invalid type error.
    pub fn new(expected: &str, found: &str) -> (r: Self)
        ensures
            r.expected@ == expected@,
            r.found@ == found@,
            r.value_name is None,
    {
        RegistryInvalidTypeError {
            expected: str_to_string(expected),
            found: str_to_string(found),
            value_name: None,
        }
    }

    /// Create an invalid type error with value name.
    pub fn with_name(expected: &str, found: &str, value_name: &str) -> (r: Self)
        ensures
            r.expected@ == expected@,
            r.found@ == found@,
            r.value_name matches Some(v) && v@ == value_name@,
    {
        RegistryInvalidTypeError {
            expected: str_to_string(expected),
            found: str_to_string(found),
            value_name: Some(str_to_string(value_name)),
        }
    }

    /// The rendered message of this error.
    pub open spec fn message_text(&self) -> Seq<char> {
        match self.value_name {
            Some(value_name) => "Invalid registry type for '"@ + value_name@ + "': expected "@ + self.expected@ + ", found "@ + self.found@,
            None => "Invalid registry type: expected "@ + self.expected@ + ", found "@ + self.found@,
        }
    }

    /// Renders the message of this error.
    pub fn to_string(&self) -> (r: String)
        ensures
            r@ == self.message_text(),
    {
        match &self.value_name {
            Some(value_name) => {
                let mut s = str_to_string("Invalid registry type for '");
                s.append(value_name.as_str());
                s.append("': expected ");
                s.append(self.expected.as_str());
                s.append(", found ");
                s.append(self.found.as_str());
                s
            },
            None => {
                let mut s = str_to_string("Invalid registry type: expected ");
                s.append(self.expected.as_str());
                s.append(", found ");
                s.append(self.found.as_str());
                s
            },
        }
    }
}

/// Registry value conversion error.
#[derive(Debug)]
pub struct RegistryConversionError {
    /// What conversion was being attempted.
    pub conversion: String,
    /// Why it failed.
    pub reason: String,
}

impl RegistryConversionError {
    /// Create a new conversion error.
    pub fn new(conversion: &str, reason: &str) -> (r: Self)
        ensures
            r.conversion@ == conversion@,
            r.reason@ == reason@,
    {
        RegistryConversionError {
            conversion: str_to_string(conversion),
            reason: str_to_string(reason),
        }
    }

    /// The rendered message of this error.
    pub open spec fn message_text(&self) -> Seq<char> {
        "Registry conversion error ("@ + self.conversion@ + "): "@ + self.reason@
    }

    /// Renders the message of this error.
    pub fn to_string(&self) -> (r: String)
        ensures
            r@ == self.message_text(),
    {
        let mut s = str_to_string("Registry conversion error (");
        s.append(self.conversion.as_str());
        s.append("): ");
        s.append(self.reason.as_str());
        s
    }
}

/// Service Control Manager failure details.
#[derive(Debug)]
pub struct ServiceManagerError {
    /// Operation that failed.
    pub operation: String,
    /// Failure reason.
    pub reason: String,
    /// Optional Windows error code.
    pub error_code: Option<i32>,
}

impl ServiceManagerError {
    /// Create a new service manager error.
    pub fn new(operation: &str, reason: &str) -> (r: Self)
        ensures
            r.operation@ == operation@,
            r.reason@ == reason@,
            r.error_code is None,
    {
        ServiceManagerError {
            operation: str_to_string(operation),
            reason: str_to_string(reason),
            error_code: None,
        }
    }

    /// Create a service manager error with error code.
    pub fn with_code(operation: &str, reason: &str, error_code: i32) -> (r: Self)
        ensures
            r.operation@ == operation@,
            r.reason@ == reason@,
            r.error_code == Some(error_code),
    {
        ServiceManagerError {
            operation: str_to_string(operation),
            reason: str_to_string(reason),
            error_code: Some(error_code),
        }
    }

    /// The rendered message of this error.
    pub open spec fn message_text(&self) -> Seq<char> {
        match self.error_code {
            Some(error_code) => "Service manager operation '"@ + self.operation@ + "' failed: "@ + self.reason@ + " (error code: "@ + hex_code(error_code) + ")"@,
            None => "Service manager operation '"@ + self.operation@ + "' failed: "@ + self.reason@,
        }
    }

    /// Renders the message of this error.
    pub fn to_string(&self) -> (r: String)
        ensures
            r@ == self.message_text(),
    {
        match self.error_code {
            Some(error_code) => {
                let mut s = str_to_string("Service manager operation '");
                s.append(self.operation.as_str());
                s.append("' failed: ");
                s.append(self.reason.as_str());
                s.append(" (error code: ");
                push_hex_code(&mut s, error_code);
                s.append(")");
                s
            },
            None => {
                let mut s = str_to_string("Service manager operation '");
                s.append(self.operation.as_str());
                s.append("' failed: ");
                s.append(self.reason.as_str());
                s
            },
        }
    }
}

/// Service not found details.
#[derive(Debug)]
pub struct ServiceNotFoundError {
    /// Service key name.
    pub name: String,
    /// Optional Windows error code.
    pub error_code: Option<i32>,
}

impl ServiceNotFoundError {
    /// Create a new service not found error.
    pub fn new(name: &str) -> (r: Self)
        ensures
            r.name@ == name@,
            r.error_code is None,
    {
        ServiceNotFoundError {
            name: str_to_string(name),
            error_code: None,
        }
    }

    /// Create a service not found error with error code.
    pub fn with_code(name: &str, error_code: i32) -> (r: Self)
        ensures
            r.name@ == name@,
            r.error_code == Some(error_code),
    {
        ServiceNotFoundError {
            name: str_to_string(name),
            error_code: Some(error_code),
        }
    }

    /// The rendered message of this error.
    pub open spec fn message_text(&self) -> Seq<char> {
        match self.error_code {
            Some(error_code) => "Service '"@ + self.name@ + "' not found (error code: "@ + hex_code(error_code) + ")"@,
            None => "Service '"@ + self.name@ + "' not found"@,
        }
    }

    /// Renders the message of this error.
    pub fn to_string(&self) -> (r: String)
        ensures
            r@ == self.message_text(),
    {
        match self.error_code {
            Some(error_code) => {
                let mut s = str_to_string("Service '");
                s.append(self.name.as_str());
                s.append("' not found (error code: ");
                push_hex_code(&mut s, error_code);
                s.append(")");
                s
            },
            None => {
                let mut s = str_to_string("Service '");
                s.append(self.name.as_str());
                s.append("' not found");
                s
            },
        }
    }
}

/// Service operation failure details.
#[derive(Debug)]
pub struct ServiceOperationError {
    /// Service key name.
    pub name: String,
    /// Operation that failed.
    pub operation: String,
    /// Failure reason.
    pub reason: String,
    /// Optional Windows error code.
    pub error_code: Option<i32>,
}

impl ServiceOperationError {
    /// Create a new service operation error.
    pub fn new(name: &str, operation: &str, reason: &str) -> (r: Self)
        ensures
            r.name@ == name@,
            r.operation@ == operation@,
            r.reason@ == reason@,
            r.error_code is None,
    {
        ServiceOperationError {
            name: str_to_string(name),
            operation: str_to_string(operation),
            reason: str_to_string(reason),
            error_code: None,
        }
    }

    /// Create a service operation error with error code.
    pub fn with_code(name: &str, operation: &str, reason: &str, error_code: i32) -> (r: Self)
        ensures
            r.name@ == name@,
            r.operation@ == operation@,
            r.reason@ == reason@,
            r.error_code == Some(error_code),
    {
        ServiceOperationError {
            name: str_to_string(name),
            operation: str_to_string(operation),
            reason: str_to_string(reason),
            error_code: Some(error_code),
        }
    }

    /// The rendered message of this error.
    pub open spec fn message_text(&self) -> Seq<char> {
        match self.error_code {
            Some(error_code) => "Service '"@ + self.name@ + "' operation '"@ + self.operation@ + "' failed: "@ + self.reason@ + " (error code: "@ + hex_code(error_code) + ")"@,
            None => "Service '"@ + self.name@ + "' operation '"@ + self.operation@ + "' failed: "@ + self.reason@,
        }
    }

    /// Renders the message of this error.
    pub fn to_string(&self) -> (r: String)
        ensures
            r@ == self.message_text(),
    {
        match self.error_code {
            Some(error_code) => {
                let mut s = str_to_string("Service '");
                s.append(self.name.as_str());
                s.append("' operation '");
                s.append(self.operation.as_str());
                s.append("' failed: ");
                s.append(self.reason.as_str());
                s.append(" (error code: ");
                push_hex_code(&mut s, error_code);
                s.append(")");
                s
            },
            None => {
                let mut s = str_to_string("Service '");
                s.append(self.name.as_str());
                s.append("' operation '");
                s.append(self.operation.as_str());
                s.append("' failed: ");
                s.append(self.reason.as_str());
                s
            },
        }
    }
}

/// Service invalid-state error details.
#[derive(Debug)]
pub struct ServiceInvalidStateError {
    /// Service key name.
    pub name: String,
    /// Expected state or condition.
    pub expected: String,
    /// Why the state is invalid.
    pub reason: String,
}

impl ServiceInvalidStateError {
    /// Create a new service invalid-state error.
    pub fn new(name: &str, expected: &str, reason: &str) -> (r: Self)
        ensures
            r.name@ == name@,
            r.expected@ == expected@,
            r.reason@ == reason@,
    {
        ServiceInvalidStateError {
            name: str_to_string(name),
            expected: str_to_string(expected),
            reason: str_to_string(reason),
        }
    }

    /// The rendered message of this error.
    pub open spec fn message_text(&self) -> Seq<char> {
        "Service '"@ + self.name@ + "' is not in expected state '"@ + self.expected@ + "': "@ + self.reason@
    }

    /// Renders the message of this error.
    pub fn to_string(&self) -> (r: String)
        ensures
            r@ == self.message_text(),
    {
        let mut s = str_to_string("Service '");
        s.append(self.name.as_str());
        s.append("' is not in expected state '");
        s.append(self.expected.as_str());
        s.append("': ");
        s.append(self.reason.as_str());
        s
    }
}

/// Process not found error.
#[derive(Debug)]
pub struct ProcessNotFoundError {
    /// The process ID that was not found.
    pub pid: u32,
}

impl ProcessNotFoundError {
    /// Create a new process not found error.
    pub fn new(pid: u32) -> (r: Self)
        ensures
            r.pid == pid,
    {
        ProcessNotFoundError {
            pid,
        }
    }

    /// The rendered message of this error.
    pub open spec fn message_text(&self) -> Seq<char> {
        "Process "@ + dec(self.pid as nat) + " not found"@
    }

    /// Renders the message of this error.
    pub fn to_string(&self) -> (r: String)
        ensures
            r@ == self.message_text(),
    {
        let mut s = str_to_string("Process ");
        push_dec(&mut s, self.pid as u64);
        s.append(" not found");
        s
    }
}

/// Process already terminated error.
#[derive(Debug)]
pub struct ProcessTerminatedError {
    /// The process ID.
    pub pid: u32,
    /// Optional exit code.
    pub exit_code: Option<u32>,
}

impl ProcessTerminatedError {
    /// Create a new process terminated error.
    pub fn new(pid: u32) -> (r: Self)
        ensures
            r.pid == pid,
            r.exit_code is None,
    {
        ProcessTerminatedError {
            pid,
            exit_code: None,
        }
    }

    /// Create a process terminated error with exit code.
    pub fn with_exit_code(pid: u32, exit_code: u32) -> (r: Self)
        ensures
            r.pid == pid,
            r.exit_code == Some(exit_code),
    {
        ProcessTerminatedError {
            pid,
            exit_code: Some(exit_code),
        }
    }

    /// The rendered message of this error.
    pub open spec fn message_text(&self) -> Seq<char> {
        match self.exit_code {
            Some(exit_code) => "Process "@ + dec(self.pid as nat) + " already terminated (exit code: "@ + dec(exit_code as nat) + ")"@,
            None => "Process "@ + dec(self.pid as nat) + " already terminated"@,
        }
    }

    /// Renders the message of this error.
    pub fn to_string(&self) -> (r: String)
        ensures
            r@ == self.message_text(),
    {
        match self.exit_code {
            Some(exit_code) => {
                let mut s = str_to_string("Process ");
                push_dec(&mut s, self.pid as u64);
                s.append(" already terminated (exit code: ");
                push_dec(&mut s, exit_code as u64);
                s.append(")");
                s
            },
            None => {
                let mut s = str_to_string("Process ");
                push_dec(&mut s, self.pid as u64);
                s.append(" already terminated");
                s
            },
        }
    }
}

/// Failed to open process error.
#[derive(Debug)]
pub struct ProcessOpenError {
    /// The process ID.
    pub pid: u32,
    /// Reason for failure.
    pub reason: String,
    /// Windows error code if available.
    pub error_code: Option<i32>,
}

impl ProcessOpenError {
    /// Create a new process open error.
    pub fn new(pid: u32, reason: &str) -> (r: Self)
        ensures
            r.pid == pid,
            r.reason@ == reason@,
            r.error_code is None,
    {
        ProcessOpenError {
            pid,
            reason: str_to_string(reason),
            error_code: None,
        }
    }

    /// Create a process open error with error code.
    pub fn with_code(pid: u32, reason: &str, error_code: i32) -> (r: Self)
        ensures
            r.pid == pid,
            r.reason@ == reason@,
            r.error_code == Some(error_code),
    {
        ProcessOpenError {
            pid,
            reason: str_to_string(reason),
            error_code: Some(error_code),
        }
    }

    /// The rendered message of this error.
    pub open spec fn message_text(&self) -> Seq<char> {
        match self.error_code {
            Some(error_code) => "Failed to open process "@ + dec(self.pid as nat) + ": "@ + self.reason@ + " (error code: "@ + hex_code(error_code) + ")"@,
            None => "Failed to open process "@ + dec(self.pid as nat) + ": "@ + self.reason@,
        }
    }

    /// Renders the message of this error.
    pub fn to_string(&self) -> (r: String)
        ensures
            r@ == self.message_text(),
    {
        match self.error_code {
            Some(error_code) => {
                let mut s = str_to_string("Failed to open process ");
                push_dec(&mut s, self.pid as u64);
                s.append(": ");
                s.append(self.reason.as_str());
                s.append(" (error code: ");
                push_hex_code(&mut s, error_code);
                s.append(")");
                s
            },
            None => {
                let mut s = str_to_string("Failed to open process ");
                push_dec(&mut s, self.pid as u64);
                s.append(": ");
                s.append(self.reason.as_str());
                s
            },
        }
    }
}

/// Failed to spawn process error.
#[derive(Debug)]
pub struct ProcessSpawnError {
    /// The command that was attempted.
    pub command: String,
    /// Reason for failure.
    pub reason: String,
    /// Windows error code if available.
    pub error_code: Option<i32>,
}

impl ProcessSpawnError {
    /// Create a new process spawn error.
    pub fn new(command: &str, reason: &str) -> (r: Self)
        ensures
            r.command@ == command@,
            r.reason@ == reason@,
            r.error_code is None,
    {
        ProcessSpawnError {
            command: str_to_string(command),
            reason: str_to_string(reason),
            error_code: None,
        }
    }

    /// Create a process spawn error with error code.
    pub fn with_code(command: &str, reason: &str, error_code: i32) -> (r: Self)
        ensures
            r.command@ == command@,
            r.reason@ == reason@,
            r.error_code == Some(error_code),
    {
        ProcessSpawnError {
            command: str_to_string(command),
            reason: str_to_string(reason),
            error_code: Some(error_code),
        }
    }

    /// The rendered message of this error.
    pub open spec fn message_text(&self) -> Seq<char> {
        match self.error_code {
            Some(error_code) => "Failed to spawn process '"@ + self.command@ + "': "@ + self.reason@ + " (error code: "@ + hex_code(error_code) + ")"@,
            None => "Failed to spawn process '"@ + self.command@ + "': "@ + self.reason@,
        }
    }

    /// Renders the message of this error.
    pub fn to_string(&self) -> (r: String)
        ensures
            r@ == self.message_text(),
    {
        match self.error_code {
            Some(error_code) => {
                let mut s = str_to_string("Failed to spawn process '");
                s.append(self.command.as_str());
                s.append("': ");
                s.append(self.reason.as_str());
                s.append(" (error code: ");
                push_hex_code(&mut s, error_code);
                s.append(")");
                s
            },
            None => {
                let mut s = str_to_string("Failed to spawn process '");
                s.append(self.command.as_str());
                s.append("': ");
                s.append(self.reason.as_str());
                s
            },
        }
    }
}

/// Thread not found error.
#[derive(Debug)]
pub struct ThreadNotFoundError {
    /// The thread ID that was not found.
    pub tid: u32,
}

impl ThreadNotFoundError {
    /// Create a new thread not found error.
    pub fn new(tid: u32) -> (r: Self)
        ensures
            r.tid == tid,
    {
        ThreadNotFoundError {
            tid,
        }
    }

    /// The rendered message of this error.
    pub open spec fn message_text(&self) -> Seq<char> {
        "Thread "@ + dec(self.tid as nat) + " not found"@
    }

    /// Renders the message of this error.
    pub fn to_string(&self) -> (r: String)
        ensures
            r@ == self.message_text(),
    {
        let mut s = str_to_string("Thread ");
        push_dec(&mut s, self.tid as u64);
        s.append(" not found");
        s
    }
}

/// Failed to open thread error.
#[derive(Debug)]
pub struct ThreadOpenError {
    /// The thread ID.
    pub tid: u32,
    /// Reason for failure.
    pub reason: String,
    /// Windows error code if available.
    pub error_code: Option<i32>,
}

impl ThreadOpenError {
    /// Create a new thread open error.
    pub fn new(tid: u32, reason: &str) -> (r: Self)
        ensures
            r.tid == tid,
            r.reason@ == reason@,
            r.error_code is None,
    {
        ThreadOpenError {
            tid,
            reason: str_to_string(reason),
            error_code: None,
        }
    }

    /// Create a thread open error with error code.
    pub fn with_code(tid: u32, reason: &str, error_code: i32) -> (r: Self)
        ensures
            r.tid == tid,
            r.reason@ == reason@,
            r.error_code == Some(error_code),
    {
        ThreadOpenError {
            tid,
            reason: str_to_string(reason),
            error_code: Some(error_code),
        }
    }

    /// The rendered message of this error.
    pub open spec fn message_text(&self) -> Seq<char> {
        match self.error_code {
            Some(error_code) => "Failed to open thread "@ + dec(self.tid as nat) + ": "@ + self.reason@ + " (error code: "@ + hex_code(error_code) + ")"@,
            None => "Failed to open thread "@ + dec(self.tid as nat) + ": "@ + self.reason@,
        }
    }

    /// Renders the message of this error.
    pub fn to_string(&self) -> (r: String)
        ensures
            r@ == self.message_text(),
    {
        match self.error_code {
            Some(error_code) => {
                let mut s = str_to_string("Failed to open thread ");
                push_dec(&mut s, self.tid as u64);
                s.append(": ");
                s.append(self.reason.as_str());
                s.append(" (error code: ");
                push_hex_code(&mut s, error_code);
                s.append(")");
                s
            },
            None => {
                let mut s = str_to_string("Failed to open thread ");
                push_dec(&mut s, self.tid as u64);
                s.append(": ");
                s.append(self.reason.as_str());
                s
            },
        }
    }
}

/// Event log not found error.
#[derive(Debug)]
pub struct EventLogNotFoundError {
    /// The name of the log that was not found.
    pub log_name: String,
}

impl EventLogNotFoundError {
    /// Create a new event log not found error.
    pub fn new(log_name: &str) -> (r: Self)
        ensures
            r.log_name@ == log_name@,
    {
        EventLogNotFoundError {
            log_name: str_to_string(log_name),
        }
    }

    /// The rendered message of this error.
    pub open spec fn message_text(&self) -> Seq<char> {
        "Event log not found: "@ + self.log_name@
    }

    /// Renders the message of this error.
    pub fn to_string(&self) -> (r: String)
        ensures
            r@ == self.message_text(),
    {
        let mut s = str_to_string("Event log not found: ");
        s.append(self.log_name.as_str());
        s
    }
}

/// Event log query error.
#[derive(Debug)]
pub struct EventLogQueryError {
    /// The log name.
    pub log_name: String,
    /// Reason for failure.
    pub reason: String,
    /// Windows error code if available.
    pub error_code: Option<i32>,
}

impl EventLogQueryError {
    /// Create a new query error.
    pub fn new(log_name: &str, reason: &str) -> (r: Self)
        ensures
            r.log_name@ == log_name@,
            r.reason@ == reason@,
            r.error_code is None,
    {
        EventLogQueryError {
            log_name: str_to_string(log_name),
            reason: str_to_string(reason),
            error_code: None,
        }
    }

    /// Create a query error with error code.
    pub fn with_code(log_name: &str, reason: &str, error_code: i32) -> (r: Self)
        ensures
            r.log_name@ == log_name@,
            r.reason@ == reason@,
            r.error_code == Some(error_code),
    {
        EventLogQueryError {
            log_name: str_to_string(log_name),
            reason: str_to_string(reason),
            error_code: Some(error_code),
        }
    }

    /// The rendered message of this error.
    pub open spec fn message_text(&self) -> Seq<char> {
        match self.error_code {
            Some(error_code) => "Failed to query event log '"@ + self.log_name@ + "': "@ + self.reason@ + " (error code: "@ + hex_code(error_code) + ")"@,
            None => "Failed to query event log '"@ + self.log_name@ + "': "@ + self.reason@,
        }
    }

    /// Renders the message of this error.
    pub fn to_string(&self) -> (r: String)
        ensures
            r@ == self.message_text(),
    {
        match self.error_code {
            Some(error_code) => {
                let mut s = str_to_string("Failed to query event log '");
                s.append(self.log_name.as_str());
                s.append("': ");
                s.append(self.reason.as_str());
                s.append(" (error code: ");
                push_hex_code(&mut s, error_code);
                s.append(")");
                s
            },
            None => {
                let mut s = str_to_string("Failed to query event log '");
                s.append(self.log_name.as_str());
                s.append("': ");
                s.append(self.reason.as_str());
                s
            },
        }
    }
}

/// Event log parse error.
#[derive(Debug)]
pub struct EventLogParseError {
    /// What failed to parse.
    pub component: String,
    /// Reason for failure.
    pub reason: String,
}

impl EventLogParseError {
    /// Create a new parse error.
    pub fn new(component: &str, reason: &str) -> (r: Self)
        ensures
            r.component@ == component@,
            r.reason@ == reason@,
    {
        EventLogParseError {
            component: str_to_string(component),
            reason: str_to_string(reason),
        }
    }

    /// The rendered message of this error.
    pub open spec fn message_text(&self) -> Seq<char> {
        "Failed to parse "@ + self.component@ + ": "@ + self.reason@
    }

    /// Renders the message of this error.
    pub fn to_string(&self) -> (r: String)
        ensures
            r@ == self.message_text(),
    {
        let mut s = str_to_string("Failed to parse ");
        s.append(self.component.as_str());
        s.append(": ");
        s.append(self.reason.as_str());
        s
    }
}

/// ETW session error.
#[derive(Debug)]
pub struct EtwSessionError {
    /// The session name.
    pub session_name: String,
    /// Reason for failure.
    pub reason: String,
    /// Windows error code if available.
    pub error_code: Option<i32>,
}

impl EtwSessionError {
    /// Create a new session error.
    pub fn new(session_name: &str, reason: &str) -> (r: Self)
        ensures
            r.session_name@ == session_name@,
            r.reason@ == reason@,
            r.error_code is None,
    {
        EtwSessionError {
            session_name: str_to_string(session_name),
            reason: str_to_string(reason),
            error_code: None,
        }
    }

    /// Create a session error with error code.
    pub fn with_code(session_name: &str, reason: &str, error_code: i32) -> (r: Self)
        ensures
            r.session_name@ == session_name@,
            r.reason@ == reason@,
            r.error_code == Some(error_code),
    {
        EtwSessionError {
            session_name: str_to_string(session_name),
            reason: str_to_string(reason),
            error_code: Some(error_code),
        }
    }

    /// The rendered message of this error.
    pub open spec fn message_text(&self) -> Seq<char> {
        match self.error_code {
            Some(error_code) => "Failed to start ETW session '"@ + self.session_name@ + "': "@ + self.reason@ + " (error code: "@ + hex_code(error_code) + ")"@,
            None => "Failed to start ETW session '"@ + self.session_name@ + "': "@ + self.reason@,
        }
    }

    /// Renders the message of this error.
    pub fn to_string(&self) -> (r: String)
        ensures
            r@ == self.message_text(),
    {
        match self.error_code {
            Some(error_code) => {
                let mut s = str_to_string("Failed to start ETW session '");
                s.append(self.session_name.as_str());
                s.append("': ");
                s.append(self.reason.as_str());
                s.append(" (error code: ");
                push_hex_code(&mut s, error_code);
                s.append(")");
                s
            },
            None => {
                let mut s = str_to_string("Failed to start ETW session '");
                s.append(self.session_name.as_str());
                s.append("': ");
                s.append(self.reason.as_str());
                s
            },
        }
    }
}

/// ETW provider error.
#[derive(Debug)]
pub struct EtwProviderError {
    /// The provider name or GUID.
    pub provider: String,
    /// Reason for failure.
    pub reason: String,
    /// Windows error code if available.
    pub error_code: Option<i32>,
}

impl EtwProviderError {
    /// Create a new provider error.
    pub fn new(provider: &str, reason: &str) -> (r: Self)
        ensures
            r.provider@ == provider@,
            r.reason@ == reason@,
            r.error_code is None,
    {
        EtwProviderError {
            provider: str_to_string(provider),
            reason: str_to_string(reason),
            error_code: None,
        }
    }

    /// Create a provider error with error code.
    pub fn with_code(provider: &str, reason: &str, error_code: i32) -> (r: Self)
        ensures
            r.provider@ == provider@,
            r.reason@ == reason@,
            r.error_code == Some(error_code),
    {
        EtwProviderError {
            provider: str_to_string(provider),
            reason: str_to_string(reason),
            error_code: Some(error_code),
        }
    }

    /// The rendered message of this error.
    pub open spec fn message_text(&self) -> Seq<char> {
        match self.error_code {
            Some(error_code) => "Failed to enable ETW provider '"@ + self.provider@ + "': "@ + self.reason@ + " (error code: "@ + hex_code(error_code) + ")"@,
            None => "Failed to enable ETW provider '"@ + self.provider@ + "': "@ + self.reason@,
        }
    }

    /// Renders the message of this error.
    pub fn to_string(&self) -> (r: String)
        ensures
            r@ == self.message_text(),
    {
        match self.error_code {
            Some(error_code) => {
                let mut s = str_to_string("Failed to enable ETW provider '");
                s.append(self.provider.as_str());
                s.append("': ");
                s.append(self.reason.as_str());
                s.append(" (error code: ");
                push_hex_code(&mut s, error_code);
                s.append(")");
                s
            },
            None => {
                let mut s = str_to_string("Failed to enable ETW provider '");
                s.append(self.provider.as_str());
                s.append("': ");
                s.append(self.reason.as_str());
                s
            },
        }
    }
}

/// ETW consume error.
#[derive(Debug)]
pub struct EtwConsumeError {
    /// Reason for failure.
    pub reason: String,
    /// Windows error code if available.
    pub error_code: Option<i32>,
}

impl EtwConsumeError {
    /// Create a new consume error.
    pub fn new(reason: &str) -> (r: Self)
        ensures
            r.reason@ == reason@,
            r.error_code is None,
    {
        EtwConsumeError {
            reason: str_to_string(reason),
            error_code: None,
        }
    }

    /// Create a consume error with error code.
    pub fn with_code(reason: &str, error_code: i32) -> (r: Self)
        ensures
            r.reason@ == reason@,
            r.error_code == Some(error_code),
    {
        EtwConsumeError {
            reason: str_to_string(reason),
            error_code: Some(error_code),
        }
    }

    /// The rendered message of this error.
    pub open spec fn message_text(&self) -> Seq<char> {
        match self.error_code {
            Some(error_code) => "Failed to consume ETW events: "@ + self.reason@ + " (error code: "@ + hex_code(error_code) + ")"@,
            None => "Failed to consume ETW events: "@ + self.reason@,
        }
    }

    /// Renders the message of this error.
    pub fn to_string(&self) -> (r: String)
        ensures
            r@ == self.message_text(),
    {
        match self.error_code {
            Some(error_code) => {
                let mut s = str_to_string("Failed to consume ETW events: ");
                s.append(self.reason.as_str());
                s.append(" (error code: ");
                push_hex_code(&mut s, error_code);
                s.append(")");
                s
            },
            None => {
                let mut s = str_to_string("Failed to consume ETW events: ");
                s.append(self.reason.as_str());
                s
            },
        }
    }
}

/// Mitigation operation error.
#[derive(Debug)]
pub struct MitigationOperationError {
    /// Operation that failed.
    pub operation: String,
    /// Policy name associated with the operation.
    pub policy: String,
    /// Optional process ID for process-specific operations.
    pub process_id: Option<u32>,
    /// Optional reason for failure.
    pub reason: Option<String>,
    /// Windows error code if available.
    pub error_code: Option<i32>,
}

impl MitigationOperationError {
    /// Create a new mitigation operation error.
    pub fn new(operation: &str, policy: &str) -> (r: Self)
        ensures
            r.operation@ == operation@,
            r.policy@ == policy@,
            r.process_id is None,
            r.reason is None,
            r.error_code is None,
    {
        MitigationOperationError {
            operation: str_to_string(operation),
            policy: str_to_string(policy),
            process_id: None,
            reason: None,
            error_code: None,
        }
    }

    /// Attach a process ID context.
    pub fn with_process_id(self, process_id: u32) -> (r: Self)
        ensures
            r.operation == self.operation,
            r.policy == self.policy,
            r.process_id == Some(process_id),
            r.reason == self.reason,
            r.error_code == self.error_code,
    {
        MitigationOperationError {
            operation: self.operation,
            policy: self.policy,
            process_id: Some(process_id),
            reason: self.reason,
            error_code: self.error_code,
        }
    }

    /// Attach a reason string.
    pub fn with_reason(self, reason: &str) -> (r: Self)
        ensures
            r.operation == self.operation,
            r.policy == self.policy,
            r.process_id == self.process_id,
            r.reason matches Some(v) && v@ == reason@,
            r.error_code == self.error_code,
    {
        MitigationOperationError {
            operation: self.operation,
            policy: self.policy,
            process_id: self.process_id,
            reason: Some(str_to_string(reason)),
            error_code: self.error_code,
        }
    }

    /// Attach a Windows error code.
    pub fn with_code(self, error_code: i32) -> (r: Self)
        ensures
            r.operation == self.operation,
            r.policy == self.policy,
            r.process_id == self.process_id,
            r.reason == self.reason,
            r.error_code == Some(error_code),
    {
        MitigationOperationError {
            operation: self.operation,
            policy: self.policy,
            process_id: self.process_id,
            reason: self.reason,
            error_code: Some(error_code),
        }
    }

    /// The rendered message of this error.
    pub open spec fn message_text(&self) -> Seq<char> {
        match (self.process_id, self.reason, self.error_code) {
            (Some(process_id), Some(reason), Some(error_code)) => "Mitigation "@ + self.operation@ + " failed for policy '"@ + self.policy@ + "' on process "@ + dec(process_id as nat) + ": "@ + reason@ + " (error code: "@ + hex_code(error_code) + ")"@,
            (Some(process_id), Some(reason), None) => "Mitigation "@ + self.operation@ + " failed for policy '"@ + self.policy@ + "' on process "@ + dec(process_id as nat) + ": "@ + reason@,
            (Some(process_id), None, Some(error_code)) => "Mitigation "@ + self.operation@ + " failed for policy '"@ + self.policy@ + "' on process "@ + dec(process_id as nat) + " (error code: "@ + hex_code(error_code) + ")"@,
            (Some(process_id), None, None) => "Mitigation "@ + self.operation@ + " failed for policy '"@ + self.policy@ + "' on process "@ + dec(process_id as nat),
            (None, Some(reason), Some(error_code)) => "Mitigation "@ + self.operation@ + " failed for policy '"@ + self.policy@ + "': "@ + reason@ + " (error code: "@ + hex_code(error_code) + ")"@,
            (None, Some(reason), None) => "Mitigation "@ + self.operation@ + " failed for policy '"@ + self.policy@ + "': "@ + reason@,
            (None, None, Some(error_code)) => "Mitigation "@ + self.operation@ + " failed for policy '"@ + self.policy@ + "' (error code: "@ + hex_code(error_code) + ")"@,
            (None, None, None) => "Mitigation "@ + self.operation@ + " failed for policy '"@ + self.policy@ + "'"@,
        }
    }

    /// Renders the message of this error.
    pub fn to_string(&self) -> (r: String)
        ensures
            r@ == self.message_text(),
    {
        match self.process_id {
            Some(process_id) => {
                match &self.reason {
                    Some(reason) => {
                        match self.error_code {
                            Some(error_code) => {
                                let mut s = str_to_string("Mitigation ");
                                s.append(self.operation.as_str());
                                s.append(" failed for policy '");
                                s.append(self.policy.as_str());
                                s.append("' on process ");
                                push_dec(&mut s, process_id as u64);
                                s.append(": ");
                                s.append(reason.as_str());
                                s.append(" (error code: ");
                                push_hex_code(&mut s, error_code);
                                s.append(")");
                                s
                            },
                            None => {
                                let mut s = str_to_string("Mitigation ");
                                s.append(self.operation.as_str());
                                s.append(" failed for policy '");
                                s.append(self.policy.as_str());
                                s.append("' on process ");
                                push_dec(&mut s, process_id as u64);
                                s.append(": ");
                                s.append(reason.as_str());
                                s
                            },
                        }
                    },
                    None => {
                        match self.error_code {
                            Some(error_code) => {
                                let mut s = str_to_string("Mitigation ");
                                s.append(self.operation.as_str());
                                s.append(" failed for policy '");
                                s.append(self.policy.as_str());
                                s.append("' on process ");
                                push_dec(&mut s, process_id as u64);
                                s.append(" (error code: ");
                                push_hex_code(&mut s, error_code);
                                s.append(")");
                                s
                            },
                            None => {
                                let mut s = str_to_string("Mitigation ");
                                s.append(self.operation.as_str());
                                s.append(" failed for policy '");
                                s.append(self.policy.as_str());
                                s.append("' on process ");
                                push_dec(&mut s, process_id as u64);
                                s
                            },
                        }
                    },
                }
            },
            None => {
                match &self.reason {
                    Some(reason) => {
                        match self.error_code {
                            Some(error_code) => {
                                let mut s = str_to_string("Mitigation ");
                                s.append(self.operation.as_str());
                                s.append(" failed for policy '");
                                s.append(self.policy.as_str());
                                s.append("': ");
                                s.append(reason.as_str());
                                s.append(" (error code: ");
                                push_hex_code(&mut s, error_code);
                                s.append(")");
                                s
                            },
                            None => {
                                let mut s = str_to_string("Mitigation ");
                                s.append(self.operation.as_str());
                                s.append(" failed for policy '");
                                s.append(self.policy.as_str());
                                s.append("': ");
                                s.append(reason.as_str());
                                s
                            },
                        }
                    },
                    None => {
                        match self.error_code {
                            Some(error_code) => {
                                let mut s = str_to_string("Mitigation ");
                                s.append(self.operation.as_str());
                                s.append(" failed for policy '");
                                s.append(self.policy.as_str());
                                s.append("' (error code: ");
                                push_hex_code(&mut s, error_code);
                                s.append(")");
                                s
                            },
                            None => {
                                let mut s = str_to_string("Mitigation ");
                                s.append(self.operation.as_str());
                                s.append(" failed for policy '");
                                s.append(self.policy.as_str());
                                s.append("'");
                                s
                            },
                        }
                    },
                }
            },
        }
    }
}

/// Code reported when a trace session of the same name already exists.
pub const ERROR_ALREADY_EXISTS_HRESULT: i32 = -2147024713;

/// Code reported when a provider is not registered.
pub const ERROR_NOT_FOUND: i32 = 0x490;

impl EtwSessionError {
    /// Session already exists error (common case).
    pub fn already_exists(session_name: &str) -> (r: Self)
        ensures
            r.session_name@ == session_name@,
            r.reason@ == "Session already exists"@,
            r.error_code == Some(ERROR_ALREADY_EXISTS_HRESULT),
    {
        EtwSessionError {
            session_name: str_to_string(session_name),
            reason: str_to_string("Session already exists"),
            error_code: Some(ERROR_ALREADY_EXISTS_HRESULT),
        }
    }

    /// Invalid configuration error: the reason reads `Invalid {field}: {issue}`.
    pub fn invalid_config(session_name: &str, field: &str, issue: &str) -> (r: Self)
        ensures
            r.session_name@ == session_name@,
            r.reason@ == "Invalid "@ + field@ + ": "@ + issue@,
            r.error_code is None,
    {
        let mut reason = str_to_string("Invalid ");
        reason.append(field);
        reason.append(": ");
        reason.append(issue);
        EtwSessionError { session_name: str_to_string(session_name), reason, error_code: None }
    }
}

impl EtwProviderError {
    /// Provider not found/registered error (common case).
    pub fn not_found(provider: &str) -> (r: Self)
        ensures
            r.provider@ == provider@,
            r.reason@ == "Provider not registered"@,
            r.error_code == Some(ERROR_NOT_FOUND),
    {
        EtwProviderError {
            provider: str_to_string(provider),
            reason: str_to_string("Provider not registered"),
            error_code: Some(ERROR_NOT_FOUND),
        }
    }
}

} // verus!
