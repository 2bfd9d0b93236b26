use knowledge_map::dto::{EmailConfig, SupabaseConfig, VertexAIConfig};
use knowledge_map::errors::EmailServiceError;
use knowledge_map::services::{AuthBackend, AuthService, EmailService, PaginatedResponse, PaginationInfo, VertexAIService};

#[test]
fn pagination_of_middle_page() {
    let p = PaginationInfo::new(45, 10, 20);
    assert_eq!(p.current_page, 3);
    assert_eq!(p.total_pages, 5);
    assert!(p.has_next);
    assert!(p.has_previous);
}

#[test]
fn pagination_of_last_and_first_pages() {
    let last = PaginationInfo::new(45, 10, 40);
    assert_eq!(last.current_page, 5);
    assert!(!last.has_next);
    let first = PaginationInfo::new(0, 10, 0);
    assert_eq!(first.current_page, 1);
    assert_eq!(first.total_pages, 0);
    assert!(!first.has_next);
    assert!(!first.has_previous);
}

#[test]
fn pagination_without_limit() {
    let p = PaginationInfo::new(12, 0, 0);
    assert_eq!(p.current_page, 1);
    assert_eq!(p.total_pages, 0);
    assert!(p.has_next);
}

#[test]
fn paginated_response_keeps_data() {
    let r = PaginatedResponse::new(vec![1, 2, 3], 3, 10, 0);
    assert_eq!(r.data, vec![1, 2, 3]);
    assert_eq!(r.pagination.total_pages, 1);
}

#[test]
fn vertex_defaults() {
    let s = VertexAIService::new(None);
    assert_eq!(s.config.project_id, "llm-project-2d719");
    assert_eq!(s.config.location, "us-central1");
    let c = VertexAIService::new(Some(VertexAIConfig { project_id: "p".to_string(), location: "l".to_string() }));
    assert_eq!(c.config.project_id, "p");
}

fn mail(user: &str, pass: &str) -> EmailConfig {
    EmailConfig {
        smtp_server: "smtp.example.org".to_string(),
        smtp_port: 587,
        smtp_username: user.to_string(),
        smtp_password: pass.to_string(),
        from_email: "no-reply@example.org".to_string(),
        domain_url: "https://example.org".to_string(),
    }
}

#[test]
fn smtp_needs_credentials() {
    assert!(matches!(EmailService::with_smtp(mail("", "x")), Err(EmailServiceError::NotConfigured(_))));
    assert!(matches!(EmailService::with_smtp(mail("u", "")), Err(EmailServiceError::NotConfigured(_))));
    let s = EmailService::with_smtp(mail("u", "p")).unwrap();
    assert!(s.is_configured());
}

#[test]
fn auth_backend_is_kept() {
    let a = AuthService::with_supabase(SupabaseConfig {
        url: "https://x".to_string(),
        anon_key: "k".to_string(),
        service_role_key: "s".to_string(),
    });
    assert!(matches!(a.backend, AuthBackend::Supabase(_)));
}
