//! Structured errors: a closed set of categories, stable codes, optional
//! details and suggestions for the user, and a classifier that files a plain
//! error message under one of them.

use crate::text::{
    chars_hold, chars_of, concat2, concat3, concat5, contains_text, decimal, extract_quoted,
    lemma_texts_push, lowercase, quoted_token, texts, to_lowercase, u64_to_string,
};
use vstd::prelude::*;
use vstd::string::*;

verus! {

/// The category an error is filed under.
#[derive(Debug, Clone, Copy, PartialEq, Eq, Structural)]
pub enum ErrorCategory {
    Connection,
    Permission,
    Timeout,
    Protocol,
    Command,
    Configuration,
    Database,
    System,
}

/// The upper-case name under which a category is shown.
pub open spec fn category_name(category: ErrorCategory) -> Seq<char> {
    match category {
        ErrorCategory::Connection => "CONNECTION"@,
        ErrorCategory::Permission => "PERMISSION"@,
        ErrorCategory::Timeout => "TIMEOUT"@,
        ErrorCategory::Protocol => "PROTOCOL"@,
        ErrorCategory::Command => "COMMAND"@,
        ErrorCategory::Configuration => "CONFIGURATION"@,
        ErrorCategory::Database => "DATABASE"@,
        ErrorCategory::System => "SYSTEM"@,
    }
}

impl ErrorCategory {
    /// The name of the category as it appears in a displayed error.
    pub fn as_str(&self) -> (name: &'static str)
        ensures
            name@ == category_name(*self),
    {
        match self {
            ErrorCategory::Connection => "CONNECTION",
            ErrorCategory::Permission => "PERMISSION",
            ErrorCategory::Timeout => "TIMEOUT",
            ErrorCategory::Protocol => "PROTOCOL",
            ErrorCategory::Command => "COMMAND",
            ErrorCategory::Configuration => "CONFIGURATION",
            ErrorCategory::Database => "DATABASE",
            ErrorCategory::System => "SYSTEM",
        }
    }

    /// The displayed form of the category.
    pub fn to_string(&self) -> (name: String)
        ensures
            name@ == category_name(*self),
    {
        String::from_str(self.as_str())
    }
}

/// A structured error.
#[derive(Debug, Clone)]
pub struct ProtocollieError {
    pub category: ErrorCategory,
    pub code: String,
    pub message: String,
    pub details: Option<String>,
    pub suggestions: Vec<String>,
}

/// What a structured error holds, as plain text.
pub struct ErrorView {
    pub category: ErrorCategory,
    pub code: Seq<char>,
    pub message: Seq<char>,
    pub details: Option<Seq<char>>,
    pub suggestions: Seq<Seq<char>>,
}

impl View for ProtocollieError {
    type V = ErrorView;

    open spec fn view(&self) -> ErrorView {
        ErrorView {
            category: self.category,
            code: self.code@,
            message: self.message@,
            details: match self.details {
                Some(d) => Some(d@),
                None => None,
            },
            suggestions: texts(self.suggestions@),
        }
    }
}

/// An error with neither details nor suggestions.
pub open spec fn plain_error(category: ErrorCategory, code: Seq<char>, message: Seq<char>)
    -> ErrorView {
    ErrorView { category, code, message, details: None, suggestions: Seq::empty() }
}

/// The error that reports a command that could not be found.
pub open spec fn command_not_found_view(command: Seq<char>) -> ErrorView {
    ErrorView {
        category: ErrorCategory::Command,
        code: "CMD_NOT_FOUND"@,
        message: "Command '"@ + command + "' not found"@,
        details: Some("The command '"@ + command + "' is not installed or not in your PATH"@),
        suggestions: seq![
            "Install Node.js if using '"@ + command + "' or 'npx' commands"@,
            "Check that the command is installed and accessible"@,
            "Verify your PATH environment variable includes the command location"@,
        ],
    }
}

/// The error that reports a resource that may not be accessed.
pub open spec fn permission_denied_view(resource: Seq<char>) -> ErrorView {
    ErrorView {
        category: ErrorCategory::Permission,
        code: "PERMISSION_DENIED"@,
        message: "Permission denied accessing "@ + resource,
        details: Some("You don't have permission to access "@ + resource),
        suggestions: seq![
            "Check file permissions for the resource"@,
            "Run with appropriate user permissions"@,
            "Verify you have execute permissions for the command"@,
        ],
    }
}

/// The error that reports a peer that did not answer in time.
pub open spec fn connection_timeout_view(target: Seq<char>, timeout_ms: u64) -> ErrorView {
    ErrorView {
        category: ErrorCategory::Timeout,
        code: "CONNECTION_TIMEOUT"@,
        message: "Connection to "@ + target + " timed out after "@ + decimal(timeout_ms as nat)
            + "ms"@,
        details: Some(
            "The server did not respond within "@ + decimal(timeout_ms as nat) + "ms"@,
        ),
        suggestions: seq![
            "Check if the server is running"@,
            "Verify network connectivity"@,
            "Try increasing the timeout value"@,
        ],
    }
}

/// The error that reports a response outside the protocol.
pub open spec fn protocol_error_view(details: Seq<char>) -> ErrorView {
    ErrorView {
        category: ErrorCategory::Protocol,
        code: "PROTOCOL_ERROR"@,
        message: "Invalid MCP protocol response"@,
        details: Some(details),
        suggestions: seq![
            "Verify the server implements MCP protocol correctly"@,
            "Check server logs for protocol errors"@,
            "Ensure server and client protocol versions are compatible"@,
        ],
    }
}

/// The error that reports a configuration field that cannot be used.
pub open spec fn configuration_error_view(field: Seq<char>, details: Seq<char>) -> ErrorView {
    ErrorView {
        category: ErrorCategory::Configuration,
        code: "CONFIG_ERROR"@,
        message: "Invalid configuration for "@ + field,
        details: Some(details),
        suggestions: seq![
            "Check the configuration format"@,
            "Verify all required fields are provided"@,
            "Review configuration examples in documentation"@,
        ],
    }
}

/// The error that reports a database operation that failed.
pub open spec fn database_error_view(operation: Seq<char>, details: Seq<char>) -> ErrorView {
    ErrorView {
        category: ErrorCategory::Database,
        code: "DATABASE_ERROR"@,
        message: "Database "@ + operation + " failed"@,
        details: Some(details),
        suggestions: seq![
            "Restart the application to reinitialize database"@,
            "Check available disk space"@,
            "Verify database file permissions"@,
        ],
    }
}

/// The error that reports a failure of the system.
pub open spec fn system_error_view(details: Seq<char>) -> ErrorView {
    ErrorView {
        category: ErrorCategory::System,
        code: "SYSTEM_ERROR"@,
        message: "System operation failed"@,
        details: Some(details),
        suggestions: seq![
            "Check system resources (memory, disk space)"@,
            "Verify system permissions"@,
            "Try restarting the application"@,
        ],
    }
}

impl ProtocollieError {
    /// An error with the given category, code and message, and nothing else.
    pub fn new(category: ErrorCategory, code: &str, message: &str) -> (e: Self)
        ensures
            e@ == plain_error(category, code@, message@),
    {
        let e = Self {
            category,
            code: String::from_str(code),
            message: String::from_str(message),
            details: None,
            suggestions: Vec::new(),
        };
        assert(e@.suggestions =~= Seq::empty());
        e
    }

    /// The same error with `details` in place of any earlier details.
    pub fn with_details(self, details: &str) -> (e: Self)
        ensures
            e@ == (ErrorView { details: Some(details@), ..self@ }),
    {
        let mut e = self;
        e.details = Some(String::from_str(details));
        e
    }

    /// The same error with one more suggestion at the end.
    pub fn with_suggestion(self, suggestion: &str) -> (e: Self)
        ensures
            e@ == (ErrorView { suggestions: self@.suggestions.push(suggestion@), ..self@ }),
    {
        let mut e = self;
        let s = String::from_str(suggestion);
        proof {
            lemma_texts_push(e.suggestions@, s);
        }
        e.suggestions.push(s);
        e
    }

    /// The same error with `suggestions` appended in their order.
    pub fn with_suggestions(self, suggestions: Vec<&str>) -> (e: Self)
        ensures
            e@ == (ErrorView {
                suggestions: self@.suggestions + suggestions@.map_values(|s: &str| s@),
                ..self@
            }),
    {
        let mut e = self;
        let ghost added = suggestions@.map_values(|s: &str| s@);
        let mut i: usize = 0;
        while i < suggestions.len()
            invariant
                i <= suggestions.len(),
                added == suggestions@.map_values(|s: &str| s@),
                e@ == (ErrorView {
                    suggestions: self@.suggestions + added.take(i as int),
                    ..self@
                }),
            decreases suggestions.len() - i,
        {
            let s = String::from_str(suggestions[i]);
            proof {
                lemma_texts_push(e.suggestions@, s);
                assert((self@.suggestions + added.take(i as int)).push(s@) =~= self@.suggestions
                    + added.take(i + 1));
            }
            e.suggestions.push(s);
            i += 1;
        }
        assert(added.take(suggestions.len() as int) =~= added);
        e
    }

    /// A command that is not installed or not on the search path.
    pub fn command_not_found(command: &str) -> (e: Self)
        ensures
            e@ == command_not_found_view(command@),
    {
        let message = concat3("Command '", command, "' not found");
        let details = concat3(
            "The command '",
            command,
            "' is not installed or not in your PATH",
        );
        let first = concat3("Install Node.js if using '", command, "' or 'npx' commands");
        let e = Self::new(ErrorCategory::Command, "CMD_NOT_FOUND", message.as_str()).with_details(
            details.as_str(),
        ).with_suggestion(first.as_str()).with_suggestion(
            "Check that the command is installed and accessible",
        ).with_suggestion("Verify your PATH environment variable includes the command location");
        assert(e@.suggestions =~= command_not_found_view(command@).suggestions);
        e
    }

    /// A resource that the user may not access.
    pub fn permission_denied(resource: &str) -> (e: Self)
        ensures
            e@ == permission_denied_view(resource@),
    {
        let message = concat2("Permission denied accessing ", resource);
        let details = concat2("You don't have permission to access ", resource);
        let e = Self::new(
            ErrorCategory::Permission,
            "PERMISSION_DENIED",
            message.as_str(),
        ).with_details(details.as_str()).with_suggestion(
            "Check file permissions for the resource",
        ).with_suggestion("Run with appropriate user permissions").with_suggestion(
            "Verify you have execute permissions for the command",
        );
        assert(e@.suggestions =~= permission_denied_view(resource@).suggestions);
        e
    }

    /// A peer that did not answer within `timeout_ms` milliseconds.
    pub fn connection_timeout(target: &str, timeout_ms: u64) -> (e: Self)
        ensures
            e@ == connection_timeout_view(target@, timeout_ms),
    {
        let ms = u64_to_string(timeout_ms);
        let message = concat5("Connection to ", target, " timed out after ", ms.as_str(), "ms");
        let details = concat3("The server did not respond within ", ms.as_str(), "ms");
        let e = Self::new(
            ErrorCategory::Timeout,
            "CONNECTION_TIMEOUT",
            message.as_str(),
        ).with_details(details.as_str()).with_suggestion(
            "Check if the server is running",
        ).with_suggestion("Verify network connectivity").with_suggestion(
            "Try increasing the timeout value",
        );
        assert(e@.suggestions =~= connection_timeout_view(target@, timeout_ms).suggestions);
        e
    }

    /// A response that does not follow the protocol.
    pub fn protocol_error(details: &str) -> (e: Self)
        ensures
            e@ == protocol_error_view(details@),
    {
        let e = Self::new(
            ErrorCategory::Protocol,
            "PROTOCOL_ERROR",
            "Invalid MCP protocol response",
        ).with_details(details).with_suggestion(
            "Verify the server implements MCP protocol correctly",
        ).with_suggestion("Check server logs for protocol errors").with_suggestion(
            "Ensure server and client protocol versions are compatible",
        );
        assert(e@.suggestions =~= protocol_error_view(details@).suggestions);
        e
    }

    /// A configuration field that cannot be used as given.
    pub fn configuration_error(field: &str, details: &str) -> (e: Self)
        ensures
            e@ == configuration_error_view(field@, details@),
    {
        let message = concat2("Invalid configuration for ", field);
        let e = Self::new(
            ErrorCategory::Configuration,
            "CONFIG_ERROR",
            message.as_str(),
        ).with_details(details).with_suggestion("Check the configuration format").with_suggestion(
            "Verify all required fields are provided",
        ).with_suggestion("Review configuration examples in documentation");
        assert(e@.suggestions =~= configuration_error_view(field@, details@).suggestions);
        e
    }

    /// A database operation that failed.
    pub fn database_error(operation: &str, details: &str) -> (e: Self)
        ensures
            e@ == database_error_view(operation@, details@),
    {
        let message = concat3("Database ", operation, " failed");
        let e = Self::new(
            ErrorCategory::Database,
            "DATABASE_ERROR",
            message.as_str(),
        ).with_details(details).with_suggestion(
            "Restart the application to reinitialize database",
        ).with_suggestion("Check available disk space").with_suggestion(
            "Verify database file permissions",
        );
        assert(e@.suggestions =~= database_error_view(operation@, details@).suggestions);
        e
    }

    /// A failure of the system.
    pub fn system_error(details: &str) -> (e: Self)
        ensures
            e@ == system_error_view(details@),
    {
        let e = Self::new(
            ErrorCategory::System,
            "SYSTEM_ERROR",
            "System operation failed",
        ).with_details(details).with_suggestion(
            "Check system resources (memory, disk space)",
        ).with_suggestion("Verify system permissions").with_suggestion(
            "Try restarting the application",
        );
        assert(e@.suggestions =~= system_error_view(details@).suggestions);
        e
    }
}

/// One line for each suggestion, each led by a bullet.
pub open spec fn bullets(suggestions: Seq<Seq<char>>) -> Seq<char>
    decreases suggestions.len(),
{
    if suggestions.len() == 0 {
        Seq::empty()
    } else {
        bullets(suggestions.drop_last()) + "\n\u{2022} "@ + suggestions.last()
    }
}

/// The displayed form of an error: category and code in brackets, the
/// message, then the details and the suggestions where there are any.
pub open spec fn display_text(e: ErrorView) -> Seq<char> {
    "["@ + category_name(e.category) + ":"@ + e.code + "] "@ + e.message + (match e.details {
        Some(d) => "\nDetails: "@ + d,
        None => Seq::empty(),
    }) + (if e.suggestions.len() > 0 {
        "\nSuggestions:"@ + bullets(e.suggestions)
    } else {
        Seq::empty()
    })
}

/// An error as it reads once a connection to `server_name` is known to be
/// its setting: errors about commands name the server.
pub open spec fn in_server_context(e: ErrorView, server_name: Seq<char>) -> ErrorView {
    if e.category == ErrorCategory::Command {
        ErrorView { message: "Failed to connect to '"@ + server_name + "': "@ + e.message, ..e }
    } else {
        e
    }
}

/// An error as it reads once the tool that was run is known.
pub open spec fn in_tool_context(e: ErrorView, tool_name: Seq<char>) -> ErrorView {
    ErrorView { message: "Tool '"@ + tool_name + "': "@ + e.message, ..e }
}

impl ProtocollieError {
    /// The displayed form of the error.
    pub fn to_string(&self) -> (s: String)
        ensures
            s@ == display_text(self@),
    {
        let mut s = concat5("[", self.category.as_str(), ":", self.code.as_str(), "] ");
        s.append(self.message.as_str());
        match &self.details {
            Some(d) => {
                s.append("\nDetails: ");
                s.append(d.as_str());
                assert(s@ =~= "["@ + category_name(self.category) + ":"@ + self.code@ + "] "@
                    + self.message@ + ("\nDetails: "@ + d@));
            },
            None => {
                assert(s@ =~= "["@ + category_name(self.category) + ":"@ + self.code@ + "] "@
                    + self.message@ + Seq::<char>::empty());
            },
        }
        let ghost head = s@;
        if self.suggestions.len() > 0 {
            s.append("\nSuggestions:");
            let mut i: usize = 0;
            while i < self.suggestions.len()
                invariant
                    i <= self.suggestions.len(),
                    s@ == head + ("\nSuggestions:"@ + bullets(
                        texts(self.suggestions@.take(i as int)),
                    )),
                decreases self.suggestions.len() - i,
            {
                let ghost before = texts(self.suggestions@.take(i as int));
                let ghost after = texts(self.suggestions@.take(i + 1));
                proof {
                    assert(after.drop_last() =~= before);
                    assert(after.last() == self.suggestions@[i as int]@);
                }
                s.append("\n\u{2022} ");
                s.append(self.suggestions[i].as_str());
                assert(s@ =~= head + ("\nSuggestions:"@ + bullets(after)));
                i += 1;
            }
            assert(self.suggestions@.take(self.suggestions.len() as int) =~= self.suggestions@);
        } else {
            assert(s@ =~= head + Seq::<char>::empty());
        }
        s
    }

    /// The same error, told as a failure to connect to `server_name` where it
    /// is about a command.
    pub fn with_server_context(self, server_name: &str) -> (e: Self)
        ensures
            e@ == in_server_context(self@, server_name@),
    {
        let mut e = self;
        match e.category {
            ErrorCategory::Command => {
                let mut message = concat3("Failed to connect to '", server_name, "': ");
                message.append(e.message.as_str());
                e.message = message;
            },
            _ => {},
        }
        e
    }

    /// The same error, told as a failure of the tool `tool_name`.
    pub fn with_tool_context(self, tool_name: &str) -> (e: Self)
        ensures
            e@ == in_tool_context(self@, tool_name@),
    {
        let mut e = self;
        let mut message = concat3("Tool '", tool_name, "': ");
        message.append(e.message.as_str());
        e.message = message;
        e
    }
}

/// The error that a message is filed under, given the message and its
/// lower-case form. The rules are tried in this order and the first that
/// matches decides: a missing command, a refused permission, a timeout, a
/// breach of the protocol, the database, the configuration; what matches none
/// is an error of the system.
pub open spec fn classified(message: Seq<char>, lower: Seq<char>) -> ErrorView {
    if contains_text(lower, "no such file or directory"@) || contains_text(
        lower,
        "command not found"@,
    ) {
        command_not_found_view(
            match quoted_token(message) {
                Some(command) => command,
                None => "unknown"@,
            },
        )
    } else if contains_text(lower, "permission denied"@) {
        permission_denied_view(
            match quoted_token(message) {
                Some(resource) => resource,
                None => "resource"@,
            },
        )
    } else if contains_text(lower, "timeout"@) {
        connection_timeout_view("server"@, 5000)
    } else if contains_text(lower, "invalid json"@) || contains_text(lower, "protocol"@)
        || contains_text(lower, "json-rpc"@) {
        protocol_error_view(message)
    } else if contains_text(lower, "database"@) || contains_text(lower, "sqlite"@) {
        database_error_view("operation"@, message)
    } else if contains_text(lower, "config"@) || contains_text(lower, "missing"@)
        || contains_text(lower, "invalid"@) {
        configuration_error_view("field"@, message)
    } else {
        system_error_view(message)
    }
}

/// The name of the command that an error message quotes.
pub fn extract_command_from_error(error: &str) -> (r: Option<&str>)
    ensures
        match r {
            Some(t) => quoted_token(error@) == Some(t@),
            None => quoted_token(error@) is None,
        },
{
    extract_quoted(error)
}

/// The name of the resource that an error message quotes.
pub fn extract_resource_from_error(error: &str) -> (r: Option<&str>)
    ensures
        match r {
            Some(t) => quoted_token(error@) == Some(t@),
            None => quoted_token(error@) is None,
        },
{
    extract_quoted(error)
}

/// Files `error_str` under a structured error, given its lower-case form.
pub fn classify(error_str: &str, error_lower: &str) -> (e: ProtocollieError)
    ensures
        e@ == classified(error_str@, error_lower@),
{
    let lower = chars_of(error_lower);
    if chars_hold(&lower, "no such file or directory") || chars_hold(&lower, "command not found") {
        return match extract_command_from_error(error_str) {
            Some(command) => ProtocollieError::command_not_found(command),
            None => ProtocollieError::command_not_found("unknown"),
        };
    }
    if chars_hold(&lower, "permission denied") {
        return match extract_resource_from_error(error_str) {
            Some(resource) => ProtocollieError::permission_denied(resource),
            None => ProtocollieError::permission_denied("resource"),
        };
    }
    if chars_hold(&lower, "timeout") {
        return ProtocollieError::connection_timeout("server", 5000);
    }
    if chars_hold(&lower, "invalid json") || chars_hold(&lower, "protocol") || chars_hold(&lower, "json-rpc") {
        return ProtocollieError::protocol_error(error_str);
    }
    if chars_hold(&lower, "database") || chars_hold(&lower, "sqlite") {
        return ProtocollieError::database_error("operation", error_str);
    }
    if chars_hold(&lower, "config") || chars_hold(&lower, "missing") || chars_hold(&lower, "invalid") {
        return ProtocollieError::configuration_error("field", error_str);
    }
    ProtocollieError::system_error(error_str)
}

/// Files a plain error message under a structured error. The message is
/// matched in lower case, and quoted names are taken from it as it stands.
pub fn analyze_error(error_str: &str) -> (e: ProtocollieError)
    ensures
        e@ == classified(error_str@, lowercase(error_str@)),
{
    let error_lower = to_lowercase(error_str);
    classify(error_str, error_lower.as_str())
}

/// The displayed form of a database error message.
pub fn format_database_error(error: &str) -> (s: String)
    ensures
        s@ == display_text(classified(error@, lowercase(error@))),
{
    analyze_error(error).to_string()
}

/// The displayed form of an error met while connecting to `server_name`.
pub fn format_connection_error(server_name: &str, error: &str) -> (s: String)
    ensures
        s@ == display_text(
            in_server_context(classified(error@, lowercase(error@)), server_name@),
        ),
{
    analyze_error(error).with_server_context(server_name).to_string()
}

/// The displayed form of an error met while running the tool `tool_name`.
pub fn format_tool_execution_error(tool_name: &str, error: &str) -> (s: String)
    ensures
        s@ == display_text(in_tool_context(classified(error@, lowercase(error@)), tool_name@)),
{
    analyze_error(error).with_tool_context(tool_name).to_string()
}

/// The displayed form of a configuration error message.
pub fn format_config_error(error: &str) -> (s: String)
    ensures
        s@ == display_text(classified(error@, lowercase(error@))),
{
    analyze_error(error).to_string()
}

/// The displayed error for an application data directory that cannot be
/// reached.
pub fn format_app_data_error() -> (s: String)
    ensures
        s@ == display_text(system_error_view("Unable to access application data directory"@)),
{
    ProtocollieError::system_error("Unable to access application data directory").to_string()
}

} // verus!
