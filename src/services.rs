use vstd::prelude::*;
use crate::dto::{BasicJWTWeviateConfig, EmailConfig, SupabaseConfig, VertexAIConfig};
use crate::errors::EmailServiceError;

verus! {

/// Page bookkeeping of a listing.
#[derive(Debug, Clone, Copy, PartialEq, Eq)]
pub struct PaginationInfo {
    pub total: i64,
    pub limit: i32,
    pub offset: i32,
    pub current_page: i32,
    pub total_pages: i32,
    pub has_next: bool,
    pub has_previous: bool,
}

/// One page of a listing.
#[derive(Debug, Clone)]
pub struct PaginatedResponse<T> {
    pub data: Vec<T>,
    pub pagination: PaginationInfo,
}

/// `a / b` rounded towards zero, for `b > 0`.
pub open spec fn div_trunc(a: int, b: int) -> int {
    if a >= 0 {
        a / b
    } else {
        -((-a) / b)
    }
}

/// `a / b` rounded up, for `b > 0`.
pub open spec fn div_ceil(a: int, b: int) -> int {
    if a >= 0 {
        (a + b - 1) / b
    } else {
        -((-a) / b)
    }
}

/// `n` clamped into the range of `i32`.
pub open spec fn saturate_i32(n: int) -> int {
    if n > i32::MAX {
        i32::MAX as int
    } else if n < i32::MIN {
        i32::MIN as int
    } else {
        n
    }
}

/// The bookkeeping of the page at `offset` with `limit` items per page.
pub open spec fn pagination(total: i64, limit: i32, offset: i32) -> PaginationInfo {
    PaginationInfo {
        total,
        limit,
        offset,
        current_page: (if limit > 0 {
            saturate_i32(div_trunc(offset as int, limit as int) + 1)
        } else {
            1
        }) as i32,
        total_pages: (if limit > 0 {
            saturate_i32(div_ceil(total as int, limit as int))
        } else {
            0
        }) as i32,
        has_next: (offset as int + limit as int) < total as int,
        has_previous: offset > 0,
    }
}

impl PaginationInfo {
    /// Page number (from one), page count and neighbours of the page that
    /// starts at `offset` with `limit` items per page. Without a positive
    /// limit there is one current page and no page count.
    pub fn new(total: i64, limit: i32, offset: i32) -> (r: PaginationInfo)
        ensures
            r.total == total,
            r.limit == limit,
            r.offset == offset,
            r.current_page as int == if limit > 0 {
                saturate_i32(div_trunc(offset as int, limit as int) + 1)
            } else {
                1
            },
            r.total_pages as int == if limit > 0 {
                saturate_i32(div_ceil(total as int, limit as int))
            } else {
                0
            },
            r.has_next == ((offset as int + limit as int) < total as int),
            r.has_previous == (offset > 0),
            r == pagination(total, limit, offset),
    {
        let current_page: i32 = if limit > 0 {
            let o = offset as i64;
            let l = limit as i64;
            let q: i64 = if o >= 0 { o / l } else { -((-o) / l) };
            let p: i64 = q + 1;
            if p > i32::MAX as i64 { i32::MAX } else { p as i32 }
        } else {
            1
        };
        let total_pages: i32 = if limit > 0 {
            let t = total as i128;
            let l = limit as i128;
            let c: i128 = if t >= 0 { (t + l - 1) / l } else { -((-t) / l) };
            if c > i32::MAX as i128 {
                i32::MAX
            } else if c < i32::MIN as i128 {
                i32::MIN
            } else {
                c as i32
            }
        } else {
            0
        };
        let has_next = (offset as i64 + limit as i64) < total;
        PaginationInfo {
            total,
            limit,
            offset,
            current_page,
            total_pages,
            has_next,
            has_previous: offset > 0,
        }
    }
}

impl<T> PaginatedResponse<T> {
    /// A page of `data` with its bookkeeping.
    pub fn new(data: Vec<T>, total: i64, limit: i32, offset: i32) -> (r: PaginatedResponse<T>)
        ensures
            r.data@ == data@,
            r.pagination.total == total,
            r.pagination.limit == limit,
            r.pagination.offset == offset,
            r.pagination == pagination(total, limit, offset),
    {
        PaginatedResponse { data, pagination: PaginationInfo::new(total, limit, offset) }
    }
}

impl Default for VertexAIConfig {
    fn default() -> (r: VertexAIConfig)
        ensures
            r.project_id@ == "llm-project-2d719"@,
            r.location@ == "us-central1"@,
    {
        VertexAIConfig {
            project_id: String::from_str("llm-project-2d719"),
            location: String::from_str("us-central1"),
        }
    }
}

/// The language model gateway's settings.
#[derive(Debug, Clone)]
pub struct VertexAIService {
    pub config: VertexAIConfig,
}

/// The endpoint of a model's content generation in the configured region
/// and project.
pub open spec fn model_url(config: VertexAIConfig, model_id: Seq<char>) -> Seq<char> {
    "https://"@ + config.location@ + "-aiplatform.googleapis.com/v1/projects/"@ + config.project_id@
        + "/locations/"@ + config.location@ + "/publishers/google/models/"@ + model_id
        + ":generateContent"@
}

/// Whether `text` matches the regular expression `pattern`, as the regex
/// crate decides; `None` when the pattern does not compile.
pub uninterp spec fn regex_match(pattern: Seq<char>, text: Seq<char>) -> Option<bool>;

/// Relies on regex::Regex::new and Regex::is_match.
#[verifier::external_body]
fn pattern_matches(pattern: &str, text: &String) -> (r: Option<bool>)
    ensures
        r == regex_match(pattern@, text@),
{
    match regex::Regex::new(pattern) {
        Ok(re) => Some(re.is_match(text)),
        Err(_) => None,
    }
}

/// The shape an address must have: something, '@', something, '.',
/// something, with no white space or second '@'.
pub const EMAIL_PATTERN: &'static str = "^[^\\s@]+@[^\\s@]+\\.[^\\s@]+$";

/// Accepts an address of the expected shape.
pub fn validate_email(email: &String) -> (r: Result<(), EmailServiceError>)
    ensures
        r is Ok <==> regex_match(EMAIL_PATTERN@, email@) == Some(true),
        r matches Err(e) ==> e is ValidationError,
{
    match pattern_matches(EMAIL_PATTERN, email) {
        Some(true) => Ok(()),
        Some(false) => Err(EmailServiceError::ValidationError(String::from_str("Invalid email format"))),
        None => Err(EmailServiceError::ValidationError(String::from_str("invalid address pattern"))),
    }
}

impl VertexAIService {
    /// The endpoint of a model's content generation.
    pub fn build_url(&self, model_id: &String) -> (r: String)
        ensures
            r@ == model_url(self.config, model_id@),
    {
        let mut r = String::from_str("https://");
        r.append(self.config.location.as_str());
        r.append("-aiplatform.googleapis.com/v1/projects/");
        r.append(self.config.project_id.as_str());
        r.append("/locations/");
        r.append(self.config.location.as_str());
        r.append("/publishers/google/models/");
        r.append(model_id.as_str());
        r.append(":generateContent");
        r
    }

    /// Uses the given settings, else the default project and region.
    pub fn new(config: Option<VertexAIConfig>) -> (r: VertexAIService)
        ensures
            config matches Some(c) ==> r.config == c,
            config is None ==> r.config.project_id@ == "llm-project-2d719"@ && r.config.location@
                == "us-central1"@,
    {
        match config {
            Some(c) => VertexAIService { config: c },
            None => VertexAIService { config: VertexAIConfig::default() },
        }
    }
}

/// Which authentication back end answers, with its settings.
#[derive(Debug, Clone)]
pub enum AuthBackend {
    Supabase(SupabaseConfig),
    BasicJwtWeviate(BasicJWTWeviateConfig),
}

/// The authentication service: the back end that requests go to.
#[derive(Debug, Clone)]
pub struct AuthService {
    pub backend: AuthBackend,
}

impl AuthService {
    pub fn new(backend: AuthBackend) -> (r: AuthService)
        ensures
            r.backend == backend,
    {
        AuthService { backend }
    }

    pub fn with_supabase(config: SupabaseConfig) -> (r: AuthService)
        ensures
            r.backend == AuthBackend::Supabase(config),
    {
        AuthService { backend: AuthBackend::Supabase(config) }
    }

    pub fn with_basic_jwt_weviate(config: BasicJWTWeviateConfig) -> (r: AuthService)
        ensures
            r.backend == AuthBackend::BasicJwtWeviate(config),
    {
        AuthService { backend: AuthBackend::BasicJwtWeviate(config) }
    }
}

/// Which mail back end sends, with its settings.
#[derive(Debug, Clone)]
pub enum EmailBackend {
    Smtp(EmailConfig),
    /// Sends nothing; every send reports that mail is not configured.
    Unconfigured,
}

/// The mail service: the back end that sends.
#[derive(Debug, Clone)]
pub struct EmailService {
    pub backend: EmailBackend,
}

/// The mail service that is not set up.
#[derive(Debug, Clone, Copy)]
pub struct DummyEmailService;

impl DummyEmailService {
    /// Accepts an address of the expected shape.
    pub fn validate_email(&self, email: &String) -> (r: Result<(), EmailServiceError>)
        ensures
            r is Ok <==> regex_match(EMAIL_PATTERN@, email@) == Some(true),
    {
        validate_email(email)
    }

    pub fn is_configured(&self) -> (r: bool)
        ensures
            !r,
    {
        false
    }
}

impl EmailService {
    pub fn new(backend: EmailBackend) -> (r: EmailService)
        ensures
            r.backend == backend,
    {
        EmailService { backend }
    }

    /// An SMTP-backed service; refused when the user name or password is
    /// empty.
    pub fn with_smtp(config: EmailConfig) -> (r: Result<EmailService, EmailServiceError>)
        ensures
            (config.smtp_username@.len() == 0 || config.smtp_password@.len() == 0) ==> (r matches Err(
                EmailServiceError::NotConfigured(_),
            )),
            (config.smtp_username@.len() > 0 && config.smtp_password@.len() > 0) ==> r == Ok::<
                EmailService,
                EmailServiceError,
            >(EmailService { backend: EmailBackend::Smtp(config) }),
    {
        if config.smtp_username.as_str().is_empty() || config.smtp_password.as_str().is_empty() {
            return Err(EmailServiceError::NotConfigured(String::from_str("SMTP credentials not configured")));
        }
        Ok(EmailService { backend: EmailBackend::Smtp(config) })
    }

    /// Accepts an address of the expected shape.
    pub fn validate_email(&self, email: &String) -> (r: Result<(), EmailServiceError>)
        ensures
            r is Ok <==> regex_match(EMAIL_PATTERN@, email@) == Some(true),
    {
        validate_email(email)
    }

    pub fn is_configured(&self) -> (r: bool)
        ensures
            r == (self.backend is Smtp),
    {
        match self.backend {
            EmailBackend::Smtp(_) => true,
            EmailBackend::Unconfigured => false,
        }
    }
}

} // verus!
