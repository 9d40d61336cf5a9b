//! Settings of the generated API documentation.

use vstd::prelude::*;

verus! {

/// Configuration for API documentation.
#[derive(Debug)]
pub struct DocumentationConfig {
    /// Whether to generate OpenAPI documentation.
    pub generate_openapi: bool,
    pub title: String,
    pub description: Option<String>,
    pub version: String,
    pub contact_email: Option<String>,
    pub license: Option<String>,
}

/// The documentation settings of a configuration that names none: no
/// documentation is generated, and every text is empty or absent.
pub open spec fn default_documentation(documentation: DocumentationConfig) -> bool {
    &&& !documentation.generate_openapi
    &&& documentation.title@.len() == 0
    &&& documentation.description is None
    &&& documentation.version@.len() == 0
    &&& documentation.contact_email is None
    &&& documentation.license is None
}

impl Clone for DocumentationConfig {
    fn clone(&self) -> (r: Self)
        ensures
            r == *self,
    {
        DocumentationConfig {
            generate_openapi: self.generate_openapi,
            title: self.title.clone(),
            description: self.description.clone(),
            version: self.version.clone(),
            contact_email: self.contact_email.clone(),
            license: self.license.clone(),
        }
    }
}

impl Default for DocumentationConfig {
    fn default() -> (r: Self)
        ensures
            default_documentation(r),
    {
        DocumentationConfig {
            generate_openapi: false,
            title: String::new(),
            description: None,
            version: String::new(),
            contact_email: None,
            license: None,
        }
    }
}

} // verus!
