//! The fields of the configuration, by name.
//!
//! A configuration comes from two places, the command line and a file, and
//! each names the fields in its own way. [`ConfigField`] has a variant for
//! each field, so that code which asks where a field was set can do so by
//! variant and not by string.

use vstd::prelude::*;
use vstd::string::*;
use crate::text::str_eq;

verus! {

/// Enum with a variant for each field of the configuration.
#[derive(Debug, Copy, Clone, Eq, PartialEq, Structural, Hash)]
pub enum ConfigField {
    /// Variant for the `accept` field.
    Accept,
    /// Variant for the `archive` field.
    Archive,
    /// Variant for the `base` field.
    Base,
    /// Variant for the `base_url` field.
    BaseUrl,
    /// Variant for the `basic_auth` field.
    BasicAuth,
    /// Variant for the `cache` field.
    Cache,
    /// Variant for the `cache_exclude_status` field.
    CacheExcludeStatus,
    /// Variant for the `cookie_jar` field.
    CookieJar,
    /// Variant for the `default_extension` field.
    DefaultExtension,
    /// Variant for the `dump` field.
    Dump,
    /// Variant for the `dump_inputs` field.
    DumpInputs,
    /// Variant for the `exclude` field.
    Exclude,
    /// Variant for the `exclude_all_private` field.
    ExcludeAllPrivate,
    /// Variant for the `exclude_file` field.
    ExcludeFile,
    /// Variant for the `exclude_link_local` field.
    ExcludeLinkLocal,
    /// Variant for the `exclude_loopback` field.
    ExcludeLoopback,
    /// Variant for the `exclude_path` field.
    ExcludePath,
    /// Variant for the `exclude_private` field.
    ExcludePrivate,
    /// Variant for the `extensions` field.
    Extensions,
    /// Variant for the `fallback_extensions` field.
    FallbackExtensions,
    /// Variant for the `files_from` field.
    FilesFrom,
    /// Variant for the `format` field.
    Format,
    /// Variant for the `generate` field.
    Generate,
    /// Variant for the `github_token` field.
    GithubToken,
    /// Variant for the `glob_ignore_case` field.
    GlobIgnoreCase,
    /// Variant for the `header` field.
    Header,
    /// Variant for the `hidden` field.
    Hidden,
    /// Variant for the `hosts` field.
    Hosts,
    /// Variant for the `host_concurrency` field.
    HostConcurrency,
    /// Variant for the `host_request_interval` field.
    HostRequestInterval,
    /// Variant for the `host_stats` field.
    HostStats,
    /// Variant for the `include` field.
    Include,
    /// Variant for the `include_fragments` field.
    IncludeFragments,
    /// Variant for the `include_mail` field.
    IncludeMail,
    /// Variant for the `include_verbatim` field.
    IncludeVerbatim,
    /// Variant for the `include_wikilinks` field.
    IncludeWikilinks,
    /// Variant for the `index_files` field.
    IndexFiles,
    /// Variant for the `insecure` field.
    Insecure,
    /// Variant for the `max_cache_age` field.
    MaxCacheAge,
    /// Variant for the `max_concurrency` field.
    MaxConcurrency,
    /// Variant for the `max_redirects` field.
    MaxRedirects,
    /// Variant for the `max_retries` field.
    MaxRetries,
    /// Variant for the `method` field.
    Method,
    /// Variant for the `min_tls` field.
    MinTls,
    /// Variant for the `mode` field.
    Mode,
    /// Variant for the `no_ignore` field.
    NoIgnore,
    /// Variant for the `no_progress` field.
    NoProgress,
    /// Variant for the `offline` field.
    Offline,
    /// Variant for the `output` field.
    Output,
    /// Variant for the `preprocess` field.
    Preprocess,
    /// Variant for the `remap` field.
    Remap,
    /// Variant for the `require_https` field.
    RequireHttps,
    /// Variant for the `retry_wait_time` field.
    RetryWaitTime,
    /// Variant for the `root_dir` field.
    RootDir,
    /// Variant for the `scheme` field.
    Scheme,
    /// Variant for the `skip_missing` field.
    SkipMissing,
    /// Variant for the `suggest` field.
    Suggest,
    /// Variant for the `threads` field.
    Threads,
    /// Variant for the `timeout` field.
    Timeout,
    /// Variant for the `user_agent` field.
    UserAgent,
    /// Variant for the `verbose` field.
    Verbose,
}

/// Merges two configurations field by field: see
/// [`ConfigMerger::merge_field`].
#[derive(Debug, Copy, Clone)]
pub struct ConfigMerger;

/// The name of a field.
pub open spec fn name_of(field: ConfigField) -> Seq<char> {
    match field {
        ConfigField::Accept => "accept"@,
        ConfigField::Archive => "archive"@,
        ConfigField::Base => "base"@,
        ConfigField::BaseUrl => "base_url"@,
        ConfigField::BasicAuth => "basic_auth"@,
        ConfigField::Cache => "cache"@,
        ConfigField::CacheExcludeStatus => "cache_exclude_status"@,
        ConfigField::CookieJar => "cookie_jar"@,
        ConfigField::DefaultExtension => "default_extension"@,
        ConfigField::Dump => "dump"@,
        ConfigField::DumpInputs => "dump_inputs"@,
        ConfigField::Exclude => "exclude"@,
        ConfigField::ExcludeAllPrivate => "exclude_all_private"@,
        ConfigField::ExcludeFile => "exclude_file"@,
        ConfigField::ExcludeLinkLocal => "exclude_link_local"@,
        ConfigField::ExcludeLoopback => "exclude_loopback"@,
        ConfigField::ExcludePath => "exclude_path"@,
        ConfigField::ExcludePrivate => "exclude_private"@,
        ConfigField::Extensions => "extensions"@,
        ConfigField::FallbackExtensions => "fallback_extensions"@,
        ConfigField::FilesFrom => "files_from"@,
        ConfigField::Format => "format"@,
        ConfigField::Generate => "generate"@,
        ConfigField::GithubToken => "github_token"@,
        ConfigField::GlobIgnoreCase => "glob_ignore_case"@,
        ConfigField::Header => "header"@,
        ConfigField::Hidden => "hidden"@,
        ConfigField::Hosts => "hosts"@,
        ConfigField::HostConcurrency => "host_concurrency"@,
        ConfigField::HostRequestInterval => "host_request_interval"@,
        ConfigField::HostStats => "host_stats"@,
        ConfigField::Include => "include"@,
        ConfigField::IncludeFragments => "include_fragments"@,
        ConfigField::IncludeMail => "include_mail"@,
        ConfigField::IncludeVerbatim => "include_verbatim"@,
        ConfigField::IncludeWikilinks => "include_wikilinks"@,
        ConfigField::IndexFiles => "index_files"@,
        ConfigField::Insecure => "insecure"@,
        ConfigField::MaxCacheAge => "max_cache_age"@,
        ConfigField::MaxConcurrency => "max_concurrency"@,
        ConfigField::MaxRedirects => "max_redirects"@,
        ConfigField::MaxRetries => "max_retries"@,
        ConfigField::Method => "method"@,
        ConfigField::MinTls => "min_tls"@,
        ConfigField::Mode => "mode"@,
        ConfigField::NoIgnore => "no_ignore"@,
        ConfigField::NoProgress => "no_progress"@,
        ConfigField::Offline => "offline"@,
        ConfigField::Output => "output"@,
        ConfigField::Preprocess => "preprocess"@,
        ConfigField::Remap => "remap"@,
        ConfigField::RequireHttps => "require_https"@,
        ConfigField::RetryWaitTime => "retry_wait_time"@,
        ConfigField::RootDir => "root_dir"@,
        ConfigField::Scheme => "scheme"@,
        ConfigField::SkipMissing => "skip_missing"@,
        ConfigField::Suggest => "suggest"@,
        ConfigField::Threads => "threads"@,
        ConfigField::Timeout => "timeout"@,
        ConfigField::UserAgent => "user_agent"@,
        ConfigField::Verbose => "verbose"@,
    }
}

/// All fields, in the order of their declaration.
pub open spec fn all_fields() -> Seq<ConfigField> {
    seq![
        ConfigField::Accept,
        ConfigField::Archive,
        ConfigField::Base,
        ConfigField::BaseUrl,
        ConfigField::BasicAuth,
        ConfigField::Cache,
        ConfigField::CacheExcludeStatus,
        ConfigField::CookieJar,
        ConfigField::DefaultExtension,
        ConfigField::Dump,
        ConfigField::DumpInputs,
        ConfigField::Exclude,
        ConfigField::ExcludeAllPrivate,
        ConfigField::ExcludeFile,
        ConfigField::ExcludeLinkLocal,
        ConfigField::ExcludeLoopback,
        ConfigField::ExcludePath,
        ConfigField::ExcludePrivate,
        ConfigField::Extensions,
        ConfigField::FallbackExtensions,
        ConfigField::FilesFrom,
        ConfigField::Format,
        ConfigField::Generate,
        ConfigField::GithubToken,
        ConfigField::GlobIgnoreCase,
        ConfigField::Header,
        ConfigField::Hidden,
        ConfigField::Hosts,
        ConfigField::HostConcurrency,
        ConfigField::HostRequestInterval,
        ConfigField::HostStats,
        ConfigField::Include,
        ConfigField::IncludeFragments,
        ConfigField::IncludeMail,
        ConfigField::IncludeVerbatim,
        ConfigField::IncludeWikilinks,
        ConfigField::IndexFiles,
        ConfigField::Insecure,
        ConfigField::MaxCacheAge,
        ConfigField::MaxConcurrency,
        ConfigField::MaxRedirects,
        ConfigField::MaxRetries,
        ConfigField::Method,
        ConfigField::MinTls,
        ConfigField::Mode,
        ConfigField::NoIgnore,
        ConfigField::NoProgress,
        ConfigField::Offline,
        ConfigField::Output,
        ConfigField::Preprocess,
        ConfigField::Remap,
        ConfigField::RequireHttps,
        ConfigField::RetryWaitTime,
        ConfigField::RootDir,
        ConfigField::Scheme,
        ConfigField::SkipMissing,
        ConfigField::Suggest,
        ConfigField::Threads,
        ConfigField::Timeout,
        ConfigField::UserAgent,
        ConfigField::Verbose,
    ]
}

/// No field has the name `s`.
pub open spec fn names_no_field(s: Seq<char>) -> bool {
    forall|field: ConfigField| s != #[trigger] name_of(field)
}

/// The field that an argument of the command line sets: `quiet` sets the
/// field `verbose`, any other argument the field of its name.
pub open spec fn names_arg(field: ConfigField, arg: Seq<char>) -> bool {
    if arg == "quiet"@ {
        field == ConfigField::Verbose
    } else {
        arg == name_of(field)
    }
}

/// What tells the names of the fields apart: the length of a name, its
/// first two letters and its ninth, with a blank where it has no such letter.
spec fn mark(s: Seq<char>) -> (nat, char, char, char) {
    (
        s.len(),
        if s.len() > 0 {
            s[0]
        } else {
            ' '
        },
        if s.len() > 1 {
            s[1]
        } else {
            ' '
        },
        if s.len() > 8 {
            s[8]
        } else {
            ' '
        },
    )
}

/// The mark of the name of each field.
spec fn mark_of(field: ConfigField) -> (nat, char, char, char) {
    match field {
        ConfigField::Accept => (6, 'a', 'c', ' '),
        ConfigField::Archive => (7, 'a', 'r', ' '),
        ConfigField::Base => (4, 'b', 'a', ' '),
        ConfigField::BaseUrl => (8, 'b', 'a', ' '),
        ConfigField::BasicAuth => (10, 'b', 'a', 't'),
        ConfigField::Cache => (5, 'c', 'a', ' '),
        ConfigField::CacheExcludeStatus => (20, 'c', 'a', 'c'),
        ConfigField::CookieJar => (10, 'c', 'o', 'a'),
        ConfigField::DefaultExtension => (17, 'd', 'e', 'e'),
        ConfigField::Dump => (4, 'd', 'u', ' '),
        ConfigField::DumpInputs => (11, 'd', 'u', 'u'),
        ConfigField::Exclude => (7, 'e', 'x', ' '),
        ConfigField::ExcludeAllPrivate => (19, 'e', 'x', 'a'),
        ConfigField::ExcludeFile => (12, 'e', 'x', 'f'),
        ConfigField::ExcludeLinkLocal => (18, 'e', 'x', 'l'),
        ConfigField::ExcludeLoopback => (16, 'e', 'x', 'l'),
        ConfigField::ExcludePath => (12, 'e', 'x', 'p'),
        ConfigField::ExcludePrivate => (15, 'e', 'x', 'p'),
        ConfigField::Extensions => (10, 'e', 'x', 'n'),
        ConfigField::FallbackExtensions => (19, 'f', 'a', '_'),
        ConfigField::FilesFrom => (10, 'f', 'i', 'o'),
        ConfigField::Format => (6, 'f', 'o', ' '),
        ConfigField::Generate => (8, 'g', 'e', ' '),
        ConfigField::GithubToken => (12, 'g', 'i', 'o'),
        ConfigField::GlobIgnoreCase => (16, 'g', 'l', 'o'),
        ConfigField::Header => (6, 'h', 'e', ' '),
        ConfigField::Hidden => (6, 'h', 'i', ' '),
        ConfigField::Hosts => (5, 'h', 'o', ' '),
        ConfigField::HostConcurrency => (16, 'h', 'o', 'c'),
        ConfigField::HostRequestInterval => (21, 'h', 'o', 'u'),
        ConfigField::HostStats => (10, 'h', 'o', 't'),
        ConfigField::Include => (7, 'i', 'n', ' '),
        ConfigField::IncludeFragments => (17, 'i', 'n', 'f'),
        ConfigField::IncludeMail => (12, 'i', 'n', 'm'),
        ConfigField::IncludeVerbatim => (16, 'i', 'n', 'v'),
        ConfigField::IncludeWikilinks => (17, 'i', 'n', 'w'),
        ConfigField::IndexFiles => (11, 'i', 'n', 'l'),
        ConfigField::Insecure => (8, 'i', 'n', ' '),
        ConfigField::MaxCacheAge => (13, 'm', 'a', 'e'),
        ConfigField::MaxConcurrency => (15, 'm', 'a', 'u'),
        ConfigField::MaxRedirects => (13, 'm', 'a', 'r'),
        ConfigField::MaxRetries => (11, 'm', 'a', 'i'),
        ConfigField::Method => (6, 'm', 'e', ' '),
        ConfigField::MinTls => (7, 'm', 'i', ' '),
        ConfigField::Mode => (4, 'm', 'o', ' '),
        ConfigField::NoIgnore => (9, 'n', 'o', 'e'),
        ConfigField::NoProgress => (11, 'n', 'o', 'e'),
        ConfigField::Offline => (7, 'o', 'f', ' '),
        ConfigField::Output => (6, 'o', 'u', ' '),
        ConfigField::Preprocess => (10, 'p', 'r', 's'),
        ConfigField::Remap => (5, 'r', 'e', ' '),
        ConfigField::RequireHttps => (13, 'r', 'e', 'h'),
        ConfigField::RetryWaitTime => (15, 'r', 'e', 'i'),
        ConfigField::RootDir => (8, 'r', 'o', ' '),
        ConfigField::Scheme => (6, 's', 'c', ' '),
        ConfigField::SkipMissing => (12, 's', 'k', 's'),
        ConfigField::Suggest => (7, 's', 'u', ' '),
        ConfigField::Threads => (7, 't', 'h', ' '),
        ConfigField::Timeout => (7, 't', 'i', ' '),
        ConfigField::UserAgent => (10, 'u', 's', 'n'),
        ConfigField::Verbose => (7, 'v', 'e', ' '),
    }
}

/// The name of each field has the mark that `mark_of` gives.
proof fn lemma_marks(field: ConfigField)
    ensures
        mark(name_of(field)) == mark_of(field),
{
    match field {
        ConfigField::Accept => {
            reveal_strlit("accept");
        },
        ConfigField::Archive => {
            reveal_strlit("archive");
        },
        ConfigField::Base => {
            reveal_strlit("base");
        },
        ConfigField::BaseUrl => {
            reveal_strlit("base_url");
        },
        ConfigField::BasicAuth => {
            reveal_strlit("basic_auth");
        },
        ConfigField::Cache => {
            reveal_strlit("cache");
        },
        ConfigField::CacheExcludeStatus => {
            reveal_strlit("cache_exclude_status");
        },
        ConfigField::CookieJar => {
            reveal_strlit("cookie_jar");
        },
        ConfigField::DefaultExtension => {
            reveal_strlit("default_extension");
        },
        ConfigField::Dump => {
            reveal_strlit("dump");
        },
        ConfigField::DumpInputs => {
            reveal_strlit("dump_inputs");
        },
        ConfigField::Exclude => {
            reveal_strlit("exclude");
        },
        ConfigField::ExcludeAllPrivate => {
            reveal_strlit("exclude_all_private");
        },
        ConfigField::ExcludeFile => {
            reveal_strlit("exclude_file");
        },
        ConfigField::ExcludeLinkLocal => {
            reveal_strlit("exclude_link_local");
        },
        ConfigField::ExcludeLoopback => {
            reveal_strlit("exclude_loopback");
        },
        ConfigField::ExcludePath => {
            reveal_strlit("exclude_path");
        },
        ConfigField::ExcludePrivate => {
            reveal_strlit("exclude_private");
        },
        ConfigField::Extensions => {
            reveal_strlit("extensions");
        },
        ConfigField::FallbackExtensions => {
            reveal_strlit("fallback_extensions");
        },
        ConfigField::FilesFrom => {
            reveal_strlit("files_from");
        },
        ConfigField::Format => {
            reveal_strlit("format");
        },
        ConfigField::Generate => {
            reveal_strlit("generate");
        },
        ConfigField::GithubToken => {
            reveal_strlit("github_token");
        },
        ConfigField::GlobIgnoreCase => {
            reveal_strlit("glob_ignore_case");
        },
        ConfigField::Header => {
            reveal_strlit("header");
        },
        ConfigField::Hidden => {
            reveal_strlit("hidden");
        },
        ConfigField::Hosts => {
            reveal_strlit("hosts");
        },
        ConfigField::HostConcurrency => {
            reveal_strlit("host_concurrency");
        },
        ConfigField::HostRequestInterval => {
            reveal_strlit("host_request_interval");
        },
        ConfigField::HostStats => {
            reveal_strlit("host_stats");
        },
        ConfigField::Include => {
            reveal_strlit("include");
        },
        ConfigField::IncludeFragments => {
            reveal_strlit("include_fragments");
        },
        ConfigField::IncludeMail => {
            reveal_strlit("include_mail");
        },
        ConfigField::IncludeVerbatim => {
            reveal_strlit("include_verbatim");
        },
        ConfigField::IncludeWikilinks => {
            reveal_strlit("include_wikilinks");
        },
        ConfigField::IndexFiles => {
            reveal_strlit("index_files");
        },
        ConfigField::Insecure => {
            reveal_strlit("insecure");
        },
        ConfigField::MaxCacheAge => {
            reveal_strlit("max_cache_age");
        },
        ConfigField::MaxConcurrency => {
            reveal_strlit("max_concurrency");
        },
        ConfigField::MaxRedirects => {
            reveal_strlit("max_redirects");
        },
        ConfigField::MaxRetries => {
            reveal_strlit("max_retries");
        },
        ConfigField::Method => {
            reveal_strlit("method");
        },
        ConfigField::MinTls => {
            reveal_strlit("min_tls");
        },
        ConfigField::Mode => {
            reveal_strlit("mode");
        },
        ConfigField::NoIgnore => {
            reveal_strlit("no_ignore");
        },
        ConfigField::NoProgress => {
            reveal_strlit("no_progress");
        },
        ConfigField::Offline => {
            reveal_strlit("offline");
        },
        ConfigField::Output => {
            reveal_strlit("output");
        },
        ConfigField::Preprocess => {
            reveal_strlit("preprocess");
        },
        ConfigField::Remap => {
            reveal_strlit("remap");
        },
        ConfigField::RequireHttps => {
            reveal_strlit("require_https");
        },
        ConfigField::RetryWaitTime => {
            reveal_strlit("retry_wait_time");
        },
        ConfigField::RootDir => {
            reveal_strlit("root_dir");
        },
        ConfigField::Scheme => {
            reveal_strlit("scheme");
        },
        ConfigField::SkipMissing => {
            reveal_strlit("skip_missing");
        },
        ConfigField::Suggest => {
            reveal_strlit("suggest");
        },
        ConfigField::Threads => {
            reveal_strlit("threads");
        },
        ConfigField::Timeout => {
            reveal_strlit("timeout");
        },
        ConfigField::UserAgent => {
            reveal_strlit("user_agent");
        },
        ConfigField::Verbose => {
            reveal_strlit("verbose");
        },
    }
}

/// No two fields have the same name.
pub proof fn lemma_names_differ(a: ConfigField, b: ConfigField)
    requires
        name_of(a) == name_of(b),
    ensures
        a == b,
{
    lemma_marks(a);
    lemma_marks(b);
}

impl ConfigField {
    /// Returns all fields, in the order of their declaration.
    pub fn all() -> (r: Vec<ConfigField>)
        ensures
            r@ == all_fields(),
    {
        let r = vec![
            ConfigField::Accept,
            ConfigField::Archive,
            ConfigField::Base,
            ConfigField::BaseUrl,
            ConfigField::BasicAuth,
            ConfigField::Cache,
            ConfigField::CacheExcludeStatus,
            ConfigField::CookieJar,
            ConfigField::DefaultExtension,
            ConfigField::Dump,
            ConfigField::DumpInputs,
            ConfigField::Exclude,
            ConfigField::ExcludeAllPrivate,
            ConfigField::ExcludeFile,
            ConfigField::ExcludeLinkLocal,
            ConfigField::ExcludeLoopback,
            ConfigField::ExcludePath,
            ConfigField::ExcludePrivate,
            ConfigField::Extensions,
            ConfigField::FallbackExtensions,
            ConfigField::FilesFrom,
            ConfigField::Format,
            ConfigField::Generate,
            ConfigField::GithubToken,
            ConfigField::GlobIgnoreCase,
            ConfigField::Header,
            ConfigField::Hidden,
            ConfigField::Hosts,
            ConfigField::HostConcurrency,
            ConfigField::HostRequestInterval,
            ConfigField::HostStats,
            ConfigField::Include,
            ConfigField::IncludeFragments,
            ConfigField::IncludeMail,
            ConfigField::IncludeVerbatim,
            ConfigField::IncludeWikilinks,
            ConfigField::IndexFiles,
            ConfigField::Insecure,
            ConfigField::MaxCacheAge,
            ConfigField::MaxConcurrency,
            ConfigField::MaxRedirects,
            ConfigField::MaxRetries,
            ConfigField::Method,
            ConfigField::MinTls,
            ConfigField::Mode,
            ConfigField::NoIgnore,
            ConfigField::NoProgress,
            ConfigField::Offline,
            ConfigField::Output,
            ConfigField::Preprocess,
            ConfigField::Remap,
            ConfigField::RequireHttps,
            ConfigField::RetryWaitTime,
            ConfigField::RootDir,
            ConfigField::Scheme,
            ConfigField::SkipMissing,
            ConfigField::Suggest,
            ConfigField::Threads,
            ConfigField::Timeout,
            ConfigField::UserAgent,
            ConfigField::Verbose,
        ];
        r
    }

    /// Returns all known field names.
    pub fn field_names() -> (r: Vec<&'static str>)
        ensures
            r@.len() == all_fields().len(),
            forall|i: int| 0 <= i < r@.len() ==> (#[trigger] r@[i])@ == name_of(all_fields()[i]),
    {
        let fields = ConfigField::all();
        let mut names: Vec<&'static str> = Vec::new();
        let mut i: usize = 0;
        while i < fields.len()
            invariant
                i <= fields@.len(),
                fields@ == all_fields(),
                names@.len() == i,
                forall|j: int| 0 <= j < i ==> (#[trigger] names@[j])@ == name_of(all_fields()[j]),
            decreases fields.len() - i,
        {
            names.push(fields[i].field_name());
            i = i + 1;
        }
        names
    }

    /// Returns the field name for the current field variant, as a string.
    pub fn field_name(&self) -> (r: &'static str)
        ensures
            r@ == name_of(*self),
    {
        match self {
            ConfigField::Accept => "accept",
            ConfigField::Archive => "archive",
            ConfigField::Base => "base",
            ConfigField::BaseUrl => "base_url",
            ConfigField::BasicAuth => "basic_auth",
            ConfigField::Cache => "cache",
            ConfigField::CacheExcludeStatus => "cache_exclude_status",
            ConfigField::CookieJar => "cookie_jar",
            ConfigField::DefaultExtension => "default_extension",
            ConfigField::Dump => "dump",
            ConfigField::DumpInputs => "dump_inputs",
            ConfigField::Exclude => "exclude",
            ConfigField::ExcludeAllPrivate => "exclude_all_private",
            ConfigField::ExcludeFile => "exclude_file",
            ConfigField::ExcludeLinkLocal => "exclude_link_local",
            ConfigField::ExcludeLoopback => "exclude_loopback",
            ConfigField::ExcludePath => "exclude_path",
            ConfigField::ExcludePrivate => "exclude_private",
            ConfigField::Extensions => "extensions",
            ConfigField::FallbackExtensions => "fallback_extensions",
            ConfigField::FilesFrom => "files_from",
            ConfigField::Format => "format",
            ConfigField::Generate => "generate",
            ConfigField::GithubToken => "github_token",
            ConfigField::GlobIgnoreCase => "glob_ignore_case",
            ConfigField::Header => "header",
            ConfigField::Hidden => "hidden",
            ConfigField::Hosts => "hosts",
            ConfigField::HostConcurrency => "host_concurrency",
            ConfigField::HostRequestInterval => "host_request_interval",
            ConfigField::HostStats => "host_stats",
            ConfigField::Include => "include",
            ConfigField::IncludeFragments => "include_fragments",
            ConfigField::IncludeMail => "include_mail",
            ConfigField::IncludeVerbatim => "include_verbatim",
            ConfigField::IncludeWikilinks => "include_wikilinks",
            ConfigField::IndexFiles => "index_files",
            ConfigField::Insecure => "insecure",
            ConfigField::MaxCacheAge => "max_cache_age",
            ConfigField::MaxConcurrency => "max_concurrency",
            ConfigField::MaxRedirects => "max_redirects",
            ConfigField::MaxRetries => "max_retries",
            ConfigField::Method => "method",
            ConfigField::MinTls => "min_tls",
            ConfigField::Mode => "mode",
            ConfigField::NoIgnore => "no_ignore",
            ConfigField::NoProgress => "no_progress",
            ConfigField::Offline => "offline",
            ConfigField::Output => "output",
            ConfigField::Preprocess => "preprocess",
            ConfigField::Remap => "remap",
            ConfigField::RequireHttps => "require_https",
            ConfigField::RetryWaitTime => "retry_wait_time",
            ConfigField::RootDir => "root_dir",
            ConfigField::Scheme => "scheme",
            ConfigField::SkipMissing => "skip_missing",
            ConfigField::Suggest => "suggest",
            ConfigField::Threads => "threads",
            ConfigField::Timeout => "timeout",
            ConfigField::UserAgent => "user_agent",
            ConfigField::Verbose => "verbose",
        }
    }

    /// Returns field variant from the given string, if possible. A string
    /// that names no field is handed back.
    pub fn from_field_name(s: &str) -> (r: Result<ConfigField, &str>)
        ensures
            match r {
                Ok(field) => s@ == name_of(field),
                Err(e) => e@ == s@ && names_no_field(s@),
            },
    {
        if str_eq(s, "accept") {
            return Ok(ConfigField::Accept);
        }
        if str_eq(s, "archive") {
            return Ok(ConfigField::Archive);
        }
        if str_eq(s, "base") {
            return Ok(ConfigField::Base);
        }
        if str_eq(s, "base_url") {
            return Ok(ConfigField::BaseUrl);
        }
        if str_eq(s, "basic_auth") {
            return Ok(ConfigField::BasicAuth);
        }
        if str_eq(s, "cache") {
            return Ok(ConfigField::Cache);
        }
        if str_eq(s, "cache_exclude_status") {
            return Ok(ConfigField::CacheExcludeStatus);
        }
        if str_eq(s, "cookie_jar") {
            return Ok(ConfigField::CookieJar);
        }
        if str_eq(s, "default_extension") {
            return Ok(ConfigField::DefaultExtension);
        }
        if str_eq(s, "dump") {
            return Ok(ConfigField::Dump);
        }
        if str_eq(s, "dump_inputs") {
            return Ok(ConfigField::DumpInputs);
        }
        if str_eq(s, "exclude") {
            return Ok(ConfigField::Exclude);
        }
        if str_eq(s, "exclude_all_private") {
            return Ok(ConfigField::ExcludeAllPrivate);
        }
        if str_eq(s, "exclude_file") {
            return Ok(ConfigField::ExcludeFile);
        }
        if str_eq(s, "exclude_link_local") {
            return Ok(ConfigField::ExcludeLinkLocal);
        }
        if str_eq(s, "exclude_loopback") {
            return Ok(ConfigField::ExcludeLoopback);
        }
        if str_eq(s, "exclude_path") {
            return Ok(ConfigField::ExcludePath);
        }
        if str_eq(s, "exclude_private") {
            return Ok(ConfigField::ExcludePrivate);
        }
        if str_eq(s, "extensions") {
            return Ok(ConfigField::Extensions);
        }
        if str_eq(s, "fallback_extensions") {
            return Ok(ConfigField::FallbackExtensions);
        }
        if str_eq(s, "files_from") {
            return Ok(ConfigField::FilesFrom);
        }
        if str_eq(s, "format") {
            return Ok(ConfigField::Format);
        }
        if str_eq(s, "generate") {
            return Ok(ConfigField::Generate);
        }
        if str_eq(s, "github_token") {
            return Ok(ConfigField::GithubToken);
        }
        if str_eq(s, "glob_ignore_case") {
            return Ok(ConfigField::GlobIgnoreCase);
        }
        if str_eq(s, "header") {
            return Ok(ConfigField::Header);
        }
        if str_eq(s, "hidden") {
            return Ok(ConfigField::Hidden);
        }
        if str_eq(s, "hosts") {
            return Ok(ConfigField::Hosts);
        }
        if str_eq(s, "host_concurrency") {
            return Ok(ConfigField::HostConcurrency);
        }
        if str_eq(s, "host_request_interval") {
            return Ok(ConfigField::HostRequestInterval);
        }
        if str_eq(s, "host_stats") {
            return Ok(ConfigField::HostStats);
        }
        if str_eq(s, "include") {
            return Ok(ConfigField::Include);
        }
        if str_eq(s, "include_fragments") {
            return Ok(ConfigField::IncludeFragments);
        }
        if str_eq(s, "include_mail") {
            return Ok(ConfigField::IncludeMail);
        }
        if str_eq(s, "include_verbatim") {
            return Ok(ConfigField::IncludeVerbatim);
        }
        if str_eq(s, "include_wikilinks") {
            return Ok(ConfigField::IncludeWikilinks);
        }
        if str_eq(s, "index_files") {
            return Ok(ConfigField::IndexFiles);
        }
        if str_eq(s, "insecure") {
            return Ok(ConfigField::Insecure);
        }
        if str_eq(s, "max_cache_age") {
            return Ok(ConfigField::MaxCacheAge);
        }
        if str_eq(s, "max_concurrency") {
            return Ok(ConfigField::MaxConcurrency);
        }
        if str_eq(s, "max_redirects") {
            return Ok(ConfigField::MaxRedirects);
        }
        if str_eq(s, "max_retries") {
            return Ok(ConfigField::MaxRetries);
        }
        if str_eq(s, "method") {
            return Ok(ConfigField::Method);
        }
        if str_eq(s, "min_tls") {
            return Ok(ConfigField::MinTls);
        }
        if str_eq(s, "mode") {
            return Ok(ConfigField::Mode);
        }
        if str_eq(s, "no_ignore") {
            return Ok(ConfigField::NoIgnore);
        }
        if str_eq(s, "no_progress") {
            return Ok(ConfigField::NoProgress);
        }
        if str_eq(s, "offline") {
            return Ok(ConfigField::Offline);
        }
        if str_eq(s, "output") {
            return Ok(ConfigField::Output);
        }
        if str_eq(s, "preprocess") {
            return Ok(ConfigField::Preprocess);
        }
        if str_eq(s, "remap") {
            return Ok(ConfigField::Remap);
        }
        if str_eq(s, "require_https") {
            return Ok(ConfigField::RequireHttps);
        }
        if str_eq(s, "retry_wait_time") {
            return Ok(ConfigField::RetryWaitTime);
        }
        if str_eq(s, "root_dir") {
            return Ok(ConfigField::RootDir);
        }
        if str_eq(s, "scheme") {
            return Ok(ConfigField::Scheme);
        }
        if str_eq(s, "skip_missing") {
            return Ok(ConfigField::SkipMissing);
        }
        if str_eq(s, "suggest") {
            return Ok(ConfigField::Suggest);
        }
        if str_eq(s, "threads") {
            return Ok(ConfigField::Threads);
        }
        if str_eq(s, "timeout") {
            return Ok(ConfigField::Timeout);
        }
        if str_eq(s, "user_agent") {
            return Ok(ConfigField::UserAgent);
        }
        if str_eq(s, "verbose") {
            return Ok(ConfigField::Verbose);
        }
        assert forall|field: ConfigField| s@ != #[trigger] name_of(field) by {
            match field {
                ConfigField::Accept => {},
                ConfigField::Archive => {},
                ConfigField::Base => {},
                ConfigField::BaseUrl => {},
                ConfigField::BasicAuth => {},
                ConfigField::Cache => {},
                ConfigField::CacheExcludeStatus => {},
                ConfigField::CookieJar => {},
                ConfigField::DefaultExtension => {},
                ConfigField::Dump => {},
                ConfigField::DumpInputs => {},
                ConfigField::Exclude => {},
                ConfigField::ExcludeAllPrivate => {},
                ConfigField::ExcludeFile => {},
                ConfigField::ExcludeLinkLocal => {},
                ConfigField::ExcludeLoopback => {},
                ConfigField::ExcludePath => {},
                ConfigField::ExcludePrivate => {},
                ConfigField::Extensions => {},
                ConfigField::FallbackExtensions => {},
                ConfigField::FilesFrom => {},
                ConfigField::Format => {},
                ConfigField::Generate => {},
                ConfigField::GithubToken => {},
                ConfigField::GlobIgnoreCase => {},
                ConfigField::Header => {},
                ConfigField::Hidden => {},
                ConfigField::Hosts => {},
                ConfigField::HostConcurrency => {},
                ConfigField::HostRequestInterval => {},
                ConfigField::HostStats => {},
                ConfigField::Include => {},
                ConfigField::IncludeFragments => {},
                ConfigField::IncludeMail => {},
                ConfigField::IncludeVerbatim => {},
                ConfigField::IncludeWikilinks => {},
                ConfigField::IndexFiles => {},
                ConfigField::Insecure => {},
                ConfigField::MaxCacheAge => {},
                ConfigField::MaxConcurrency => {},
                ConfigField::MaxRedirects => {},
                ConfigField::MaxRetries => {},
                ConfigField::Method => {},
                ConfigField::MinTls => {},
                ConfigField::Mode => {},
                ConfigField::NoIgnore => {},
                ConfigField::NoProgress => {},
                ConfigField::Offline => {},
                ConfigField::Output => {},
                ConfigField::Preprocess => {},
                ConfigField::Remap => {},
                ConfigField::RequireHttps => {},
                ConfigField::RetryWaitTime => {},
                ConfigField::RootDir => {},
                ConfigField::Scheme => {},
                ConfigField::SkipMissing => {},
                ConfigField::Suggest => {},
                ConfigField::Threads => {},
                ConfigField::Timeout => {},
                ConfigField::UserAgent => {},
                ConfigField::Verbose => {},
            }
        }
        Err(s)
    }
}

impl ConfigMerger {
    /// Whether a field of the merged configuration is taken from the
    /// overriding configuration: it is, where the field was defined there.
    pub fn field_is_defined(&self, field: ConfigField, defined: &Vec<ConfigField>) -> (r: bool)
        ensures
            r == defined@.contains(field),
    {
        let mut i: usize = 0;
        while i < defined.len()
            invariant
                i <= defined@.len(),
                forall|j: int| 0 <= j < i ==> defined@[j] != field,
            decreases defined.len() - i,
        {
            if defined[i] == field {
                return true;
            }
            i = i + 1;
        }
        false
    }

    /// Merges one field of two configurations with overriding: the value of
    /// `overrides` where the field was defined there, else the value of
    /// `base`.
    pub fn merge_field<T>(
        &self,
        field: ConfigField,
        base: T,
        overrides: T,
        defined: &Vec<ConfigField>,
    ) -> (r: T)
        ensures
            r == if defined@.contains(field) {
                overrides
            } else {
                base
            },
    {
        if self.field_is_defined(field, defined) {
            overrides
        } else {
            base
        }
    }
}

/// Makes a merger. A merger holds no state of its own.
pub fn _f() {
    let _ = ConfigMerger {  };
}

/// The field that a name of the configuration file stands for.
pub fn toml_name_to_field(x: &str) -> (r: Option<ConfigField>)
    ensures
        match r {
            Some(field) => x@ == name_of(field),
            None => names_no_field(x@),
        },
{
    match ConfigField::from_field_name(x) {
        Ok(field) => Some(field),
        Err(_) => None,
    }
}

/// The field that an argument of the command line stands for, by the
/// argument's id: `quiet` stands for the field `verbose`, any other id for
/// the field of its name.
pub fn clap_arg_to_field(x: &str) -> (r: Option<ConfigField>)
    ensures
        match r {
            Some(field) => names_arg(field, x@),
            None => x@ != "quiet"@ && names_no_field(x@),
        },
{
    if str_eq(x, "quiet") {
        Some(ConfigField::Verbose)
    } else {
        match ConfigField::from_field_name(x) {
            Ok(field) => Some(field),
            Err(_) => None,
        }
    }
}

} // verus!
