use vstd::prelude::*;

verus! {

/// An authenticated user as the back ends report it.
#[derive(Debug, Clone)]
pub struct AuthUser {
    pub id: String,
    pub email: String,
    pub name: Option<String>,
    pub roles: Vec<String>,
}

/// The user attached to a request after its token was verified.
#[derive(Debug, Clone)]
pub struct AuthenticatedUser {
    pub user: AuthUser,
}

#[derive(Debug, Clone)]
pub struct LoginRequest {
    pub email: String,
    pub password: String,
}

#[derive(Debug, Clone)]
pub struct SignUpRequest {
    pub email: String,
    pub password: String,
    pub name: Option<String>,
}

#[derive(Debug, Clone)]
pub struct LoginResponse {
    pub access_token: Option<String>,
    pub refresh_token: Option<String>,
    pub user: AuthUser,
    pub expires_in: u64,
    pub email_confirmation_pending: Option<bool>,
}

#[derive(Debug, Clone)]
pub struct RefreshTokenRequest {
    pub refresh_token: String,
}

/// Envelope of the authentication endpoints.
#[derive(Debug, Clone)]
pub struct AuthResponse<T> {
    pub success: bool,
    pub data: Option<T>,
    pub message: Option<String>,
    pub error: Option<String>,
}

#[derive(Debug, Clone)]
pub struct UserIdParam {
    pub user_id: String,
}

/// Envelope of the mail endpoints.
#[derive(Debug, Clone)]
pub struct EmailResponse<T> {
    pub success: bool,
    pub data: Option<T>,
    pub message: Option<String>,
    pub error: Option<String>,
}

#[derive(Debug, Clone)]
pub struct PasswordResetRequest {
    pub email: String,
    pub user_name: Option<String>,
}

#[derive(Debug, Clone)]
pub struct PasswordResetConfirmationRequest {
    pub email: String,
    pub user_name: Option<String>,
}

#[derive(Debug, Clone)]
pub struct EmailConfirmationRequest {
    pub email: String,
    pub user_name: Option<String>,
}

/// Settings of the SMTP relay.
#[derive(Debug, Clone)]
pub struct EmailConfig {
    pub smtp_server: String,
    pub smtp_port: u16,
    pub smtp_username: String,
    pub smtp_password: String,
    pub from_email: String,
    pub domain_url: String,
}

#[derive(Debug, Clone)]
pub struct PasswordResetEmail {
    pub email: String,
    pub reset_token: String,
    pub user_name: Option<String>,
}

#[derive(Debug, Clone)]
pub struct PasswordResetConfirmationEmail {
    pub email: String,
    pub user_name: Option<String>,
}

#[derive(Debug, Clone)]
pub struct EmailConfirmationEmail {
    pub email: String,
    pub confirmation_token: String,
    pub user_name: Option<String>,
}

/// Settings of the token-signing back end.
#[derive(Debug, Clone)]
pub struct BasicJWTWeviateConfig {
    pub jwt_secret: String,
    pub weviate_url: String,
    pub weviate_api_key: String,
    pub token_expiry_hours: u64,
}

/// Settings of the hosted authentication back end.
#[derive(Debug, Clone)]
pub struct SupabaseConfig {
    pub url: String,
    pub anon_key: String,
    pub service_role_key: String,
}

/// A ranked snippet from the web or news search gateway.
#[derive(Debug, Clone)]
pub struct SearchResult {
    pub title: String,
    pub url: String,
    pub content: String,
    pub published_date: Option<String>,
}

/// A query for the web search gateway.
#[derive(Debug, Clone)]
pub struct SearchRequest {
    pub query: String,
    pub max_results: Option<i32>,
    pub search_depth: Option<String>,
    pub include_raw_content: Option<bool>,
}

/// A query for the news search gateway.
#[derive(Debug, Clone)]
pub struct NewsSearchRequest {
    pub query: String,
    pub max_results: Option<i32>,
    /// How far back to look, such as "7d".
    pub time_period: Option<String>,
}

#[derive(Debug, Clone)]
pub struct ChatRequest {
    pub history: Option<Vec<String>>,
    pub context: Option<String>,
    pub prompt: String,
    pub agent_key: Option<String>,
}

#[derive(Debug, Clone)]
pub struct ChatResponse {
    pub response: String,
    pub prompt: String,
    pub context: Option<String>,
    pub history: Option<Vec<String>>,
    pub agent_key: Option<String>,
}

/// Where the language model is hosted.
#[derive(Debug, Clone)]
pub struct VertexAIConfig {
    pub project_id: String,
    pub location: String,
}

/// How one language model call is made.
#[derive(Debug, Clone)]
pub struct VertexAIRequestConfig {
    pub model_id: String,
    pub agent_key: Option<String>,
    pub system_prompt: Option<String>,
    pub include_thoughts: bool,
    pub use_google_search: bool,
    pub use_retrieval: bool,
    /// Whether the reply must be a JSON object with a `keywords` list of
    /// strings.
    pub keywords_schema: bool,
}

/// An edge of the graph as the canvas view shows it.
#[derive(Debug, Clone)]
pub struct GraphEdge {
    pub id: String,
    pub source: String,
    pub target: String,
}

#[derive(Debug, Clone)]
pub struct CreateCanvasRequest {
    pub name: String,
    pub author_id: String,
    pub system_instruction: Option<String>,
}

#[derive(Debug, Clone)]
pub struct UpdateCanvasRequest {
    pub name: Option<String>,
    pub system_instruction: Option<String>,
}

#[derive(Debug, Clone)]
pub struct GetCanvasesRequest {
    pub author_id: String,
    pub limit: Option<i32>,
    pub offset: Option<i32>,
}

#[derive(Debug, Clone)]
pub struct InsertCanvas {
    pub id: String,
    pub author_id: String,
    pub name: String,
    pub system_instruction: String,
}

#[derive(Debug, Clone)]
pub struct ListCanvasQuery {
    pub author_id: Option<String>,
    pub limit: Option<i32>,
    pub offset: Option<i32>,
}

#[derive(Debug, Clone)]
pub struct GetNodesRequest {
    pub canvas_id: String,
    pub limit: Option<i32>,
    pub offset: Option<i32>,
}

/// Languages an agent may answer in.
#[derive(Debug, Clone, Copy, PartialEq, Eq)]
pub enum Language {
    English,
    Spanish,
    French,
    German,
    Chinese,
    Japanese,
    Korean,
    Portuguese,
    Russian,
    Arabic,
}

/// Life-cycle state of an agent.
#[derive(Debug, Clone, Copy, PartialEq, Eq)]
pub enum AgentStatus {
    Active,
    Inactive,
    Draft,
    Archived,
}

} // verus!
