//! Errors of the runtime and of request handlers.
use vstd::prelude::*;
use vstd::string::*;

verus! {

/// Why a resource, a stream or a configuration was refused.
pub enum RuntimeError {
    InvalidConfiguration(String),
    SourceAlreadySet { stream: String },
    ConsumerAlreadySet { stream: String },
    ConsumerNotSet { stream: String },
    ResourceStopped(String),
    ResourceAlreadyStarted(String),
    DuplicateResource(String),
    Transport(String),
    ContextCancelled,
}

/// A runtime error with its text as characters.
pub ghost enum RuntimeErrorView {
    InvalidConfiguration(Seq<char>),
    SourceAlreadySet(Seq<char>),
    ConsumerAlreadySet(Seq<char>),
    ConsumerNotSet(Seq<char>),
    ResourceStopped(Seq<char>),
    ResourceAlreadyStarted(Seq<char>),
    DuplicateResource(Seq<char>),
    Transport(Seq<char>),
    ContextCancelled,
}

pub type RuntimeResult<T> = Result<T, RuntimeError>;

impl View for RuntimeError {
    type V = RuntimeErrorView;

    open spec fn view(&self) -> RuntimeErrorView {
        match self {
            RuntimeError::InvalidConfiguration(text) => RuntimeErrorView::InvalidConfiguration(
                text@,
            ),
            RuntimeError::SourceAlreadySet { stream } => RuntimeErrorView::SourceAlreadySet(
                stream@,
            ),
            RuntimeError::ConsumerAlreadySet { stream } => RuntimeErrorView::ConsumerAlreadySet(
                stream@,
            ),
            RuntimeError::ConsumerNotSet { stream } => RuntimeErrorView::ConsumerNotSet(stream@),
            RuntimeError::ResourceStopped(name) => RuntimeErrorView::ResourceStopped(name@),
            RuntimeError::ResourceAlreadyStarted(name) => RuntimeErrorView::ResourceAlreadyStarted(
                name@,
            ),
            RuntimeError::DuplicateResource(name) => RuntimeErrorView::DuplicateResource(name@),
            RuntimeError::Transport(text) => RuntimeErrorView::Transport(text@),
            RuntimeError::ContextCancelled => RuntimeErrorView::ContextCancelled,
        }
    }
}

impl RuntimeError {
    /// A configuration error with a fixed text.
    pub fn invalid(text: &str) -> (error: RuntimeError)
        ensures
            error@ == RuntimeErrorView::InvalidConfiguration(text@),
    {
        RuntimeError::InvalidConfiguration(text.to_owned())
    }
}

/// Why the library itself failed a request.
#[derive(Clone, Copy, Debug, PartialEq, Eq, Structural)]
pub enum Fault {
    GrpcRequestNotSent,
    GrpcClientStreamCancelled,
    GrpcRequestCancelled,
    GrpcUnaryCancelled,
    GrpcUnaryAlreadySent,
    GrpcDuplicateStream,
    HttpRequestNotCreated,
    HttpInvalidMethod,
    HttpRequestCancelled,
    HttpCancelledBeforeDone,
    KafkaProducerNotRunning,
    KafkaMessageCancelled,
    LocalCancelledBeforeDone,
    PendingDuplicate,
}

/// The message of a fault.
pub open spec fn fault_text(fault: Fault) -> Seq<char> {
    match fault {
        Fault::GrpcRequestNotSent => "gRPC sink handler did not send a request"@,
        Fault::GrpcClientStreamCancelled => "gRPC client stream context cancelled"@,
        Fault::GrpcRequestCancelled => "gRPC request context cancelled"@,
        Fault::GrpcUnaryCancelled => "gRPC unary request context cancelled"@,
        Fault::GrpcUnaryAlreadySent => "gRPC unary result already sent"@,
        Fault::GrpcDuplicateStream => "duplicate gRPC stream ID"@,
        Fault::HttpRequestNotCreated => "HTTP sink handler did not create a request"@,
        Fault::HttpInvalidMethod => "invalid HTTP method"@,
        Fault::HttpRequestCancelled => "HTTP request context cancelled"@,
        Fault::HttpCancelledBeforeDone =>
            "HTTP request context cancelled before ResultContext::done"@,
        Fault::KafkaProducerNotRunning => "Kafka producer is not running"@,
        Fault::KafkaMessageCancelled => "Kafka message context cancelled"@,
        Fault::LocalCancelledBeforeDone =>
            "request context cancelled before ResultContext::done"@,
        Fault::PendingDuplicate => "duplicate pending request"@,
    }
}

impl Fault {
    /// The message of the fault.
    pub fn text(self) -> (text: &'static str)
        ensures
            text@ == fault_text(self),
    {
        match self {
            Fault::GrpcRequestNotSent => "gRPC sink handler did not send a request",
            Fault::GrpcClientStreamCancelled => "gRPC client stream context cancelled",
            Fault::GrpcRequestCancelled => "gRPC request context cancelled",
            Fault::GrpcUnaryCancelled => "gRPC unary request context cancelled",
            Fault::GrpcUnaryAlreadySent => "gRPC unary result already sent",
            Fault::GrpcDuplicateStream => "duplicate gRPC stream ID",
            Fault::HttpRequestNotCreated => "HTTP sink handler did not create a request",
            Fault::HttpInvalidMethod => "invalid HTTP method",
            Fault::HttpRequestCancelled => "HTTP request context cancelled",
            Fault::HttpCancelledBeforeDone =>
                "HTTP request context cancelled before ResultContext::done",
            Fault::KafkaProducerNotRunning => "Kafka producer is not running",
            Fault::KafkaMessageCancelled => "Kafka message context cancelled",
            Fault::LocalCancelledBeforeDone =>
                "request context cancelled before ResultContext::done",
            Fault::PendingDuplicate => "duplicate pending request",
        }
    }
}

/// What ends a request early: an error that a handler or a transport raised, or
/// a fault that the library found.
pub enum HandlerError<X> {
    Raised(X),
    Fault(Fault),
}

pub type HandlerResult<T, X> = Result<T, HandlerError<X>>;

/// Errors that read the same are of the same kind: an error and its characters tell the same.
pub proof fn law_errors_are_told_apart(a: RuntimeError, b: RuntimeError)
    requires
        a@ == b@,
    ensures
        match (a, b) {
            (RuntimeError::InvalidConfiguration(x), RuntimeError::InvalidConfiguration(y)) => x@
                == y@,
            (
                RuntimeError::SourceAlreadySet { stream: x },
                RuntimeError::SourceAlreadySet { stream: y },
            ) => x@ == y@,
            (
                RuntimeError::ConsumerAlreadySet { stream: x },
                RuntimeError::ConsumerAlreadySet { stream: y },
            ) => x@ == y@,
            (
                RuntimeError::ConsumerNotSet { stream: x },
                RuntimeError::ConsumerNotSet { stream: y },
            ) => x@ == y@,
            (RuntimeError::ResourceStopped(x), RuntimeError::ResourceStopped(y)) => x@ == y@,
            (RuntimeError::ResourceAlreadyStarted(x), RuntimeError::ResourceAlreadyStarted(y)) => x@
                == y@,
            (RuntimeError::DuplicateResource(x), RuntimeError::DuplicateResource(y)) => x@ == y@,
            (RuntimeError::Transport(x), RuntimeError::Transport(y)) => x@ == y@,
            (RuntimeError::ContextCancelled, RuntimeError::ContextCancelled) => true,
            _ => false,
        },
        a is InvalidConfiguration <==> a@ is InvalidConfiguration,
        a is SourceAlreadySet <==> a@ is SourceAlreadySet,
        a is ConsumerAlreadySet <==> a@ is ConsumerAlreadySet,
        a is ConsumerNotSet <==> a@ is ConsumerNotSet,
        a is ResourceStopped <==> a@ is ResourceStopped,
        a is ResourceAlreadyStarted <==> a@ is ResourceAlreadyStarted,
        a is DuplicateResource <==> a@ is DuplicateResource,
        a is Transport <==> a@ is Transport,
        a is ContextCancelled <==> a@ is ContextCancelled,
{
}

} // verus!
