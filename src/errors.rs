use vstd::prelude::*;

verus! {

/// Failures of the topic store.
#[derive(Debug, Clone, PartialEq, Eq)]
pub enum NodeRepositoryError {
    DatabaseError(String),
    NotFound,
    InvalidData(String),
}

/// Failures of the canvas store.
#[derive(Debug, Clone, PartialEq, Eq)]
pub enum CanvasRepositoryError {
    DatabaseError(String),
    NotFound,
    InvalidData(String),
}

/// Failures of the two orchestration pipelines.
#[derive(Debug, Clone, PartialEq, Eq)]
pub enum AIServiceError {
    GenerationFailed(String),
    CanvasNotFound(String),
    TopicNotFound(String),
    DatabaseError(String),
    AIServiceError(String),
    InvalidResponseFormat(String),
    SearchServiceError(String),
    WeaviateError(String),
}

/// Failures of topic creation and lookup at the service level.
#[derive(Debug, Clone, PartialEq, Eq)]
pub enum NodeServiceError {
    DatabaseError(String),
    ValidationError(String),
    NotFound,
    CanvasNotFound,
    TopicAlreadyExists,
}

/// Failures of canvas operations at the service level.
#[derive(Debug, Clone, PartialEq, Eq)]
pub enum CanvasServiceError {
    DatabaseError(String),
    ValidationError(String),
    NotFound,
}

/// Failures of the authentication back ends.
#[derive(Debug, Clone, PartialEq, Eq)]
pub enum AuthServiceError {
    AuthenticationFailed(String),
    InvalidToken(String),
    TokenExpired,
    Unauthorized,
    UserNotFound,
    ExternalServiceError(String),
    ValidationError(String),
}

/// Failures of outbound mail.
#[derive(Debug, Clone, PartialEq, Eq)]
pub enum EmailServiceError {
    NotConfigured(String),
    SmtpError(String),
    ValidationError(String),
    ExternalServiceError(String),
}

/// Failures of the web and news search gateways.
#[derive(Debug, Clone, PartialEq, Eq)]
pub enum InternetSearchError {
    SearchFailed(String),
    ConfigurationError(String),
    ApiError(String),
    TimeoutError(String),
}

/// Failures of the language model gateway.
#[derive(Debug, Clone, PartialEq, Eq)]
pub enum VertexAIServiceError {
    GenerationFailed(String),
    ConfigurationError(String),
    ApiError(String),
    AgentNotFound(String),
}

/// Failures of the document index gateway.
#[derive(Debug, Clone, PartialEq, Eq)]
pub enum WeaviateError {
    ConfigurationError(String),
    ApiError(String),
    TimeoutError(String),
    SearchFailed(String),
}

} // verus!
