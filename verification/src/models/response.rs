use vstd::prelude::*;

verus! {

/// Common API response structure.
#[derive(Debug, Clone, PartialEq, Eq)]
pub struct ApiResponse<T> {
    /// Success flag
    pub success: bool,
    /// Response data
    pub data: Option<T>,
    /// Error code
    pub code: Option<String>,
    /// Error message
    pub message: Option<String>,
}

impl<T> ApiResponse<T> {
    /// Create a new successful response.
    pub fn success(data: T) -> (response: Self)
        ensures
            response == (ApiResponse { success: true, data: Some(data), code: None, message: None }),
    {
        ApiResponse { success: true, data: Some(data), code: None, message: None }
    }

    /// Create a new error response.
    pub fn error(code: &str, message: &str) -> (response: Self)
        ensures
            !response.success,
            response.data is None,
            response.code matches Some(text) && text@ == code@,
            response.message matches Some(text) && text@ == message@,
    {
        ApiResponse {
            success: false,
            data: None,
            code: Some(code.to_owned()),
            message: Some(message.to_owned()),
        }
    }

    /// Check if the response is successful.
    pub fn is_success(&self) -> (success: bool)
        ensures
            success == self.success,
    {
        self.success
    }

    /// Get the data from the response.
    pub fn get_data(&self) -> (data: Option<&T>)
        ensures
            match self.data {
                Some(held) => data == Some(&held),
                None => data is None,
            },
    {
        self.data.as_ref()
    }
}

/// Pagination information.
#[derive(Debug, Clone, Copy, PartialEq, Eq)]
pub struct Pagination {
    /// Current page
    pub page: u32,
    /// Page size
    pub page_size: u32,
    /// Total number of items
    pub total: u32,
    /// Total number of pages
    pub total_pages: u32,
}

/// Paginated API response.
#[derive(Debug, Clone, PartialEq, Eq)]
pub struct PaginatedResponse<T> {
    /// Success flag
    pub success: bool,
    /// Response data
    pub data: Option<Vec<T>>,
    /// Pagination information
    pub pagination: Option<Pagination>,
    /// Error code
    pub code: Option<String>,
    /// Error message
    pub message: Option<String>,
}

impl<T> PaginatedResponse<T> {
    /// Create a new successful paginated response.
    pub fn success(data: Vec<T>, pagination: Pagination) -> (response: Self)
        ensures
            response == (PaginatedResponse {
                success: true,
                data: Some(data),
                pagination: Some(pagination),
                code: None,
                message: None,
            }),
    {
        PaginatedResponse {
            success: true,
            data: Some(data),
            pagination: Some(pagination),
            code: None,
            message: None,
        }
    }

    /// Create a new error response.
    pub fn error(code: &str, message: &str) -> (response: Self)
        ensures
            !response.success,
            response.data is None,
            response.pagination is None,
            response.code matches Some(text) && text@ == code@,
            response.message matches Some(text) && text@ == message@,
    {
        PaginatedResponse {
            success: false,
            data: None,
            pagination: None,
            code: Some(code.to_owned()),
            message: Some(message.to_owned()),
        }
    }

    /// Check if the response is successful.
    pub fn is_success(&self) -> (success: bool)
        ensures
            success == self.success,
    {
        self.success
    }

    /// Get the data from the response.
    pub fn get_data(&self) -> (data: Option<&Vec<T>>)
        ensures
            match self.data {
                Some(held) => data == Some(&held),
                None => data is None,
            },
    {
        self.data.as_ref()
    }

    /// Get the pagination information.
    pub fn get_pagination(&self) -> (pagination: Option<&Pagination>)
        ensures
            match self.pagination {
                Some(held) => pagination == Some(&held),
                None => pagination is None,
            },
    {
        self.pagination.as_ref()
    }
}

} // verus!
