//! Which Josh proxy a synchronisation goes through.
use crate::config::{ConfigView, JoshConfig};
use crate::error::{Fault, SyncError};
use crate::text::maybe;
use vstd::prelude::*;

verus! {

/// A Josh proxy. `S` holds texts.
#[derive(Debug, PartialEq, Eq)]
pub enum Proxy<S> {
    /// A proxy that somebody else runs, under this URL.
    External(S),
    /// A proxy that is started for the synchronisation, from the binary at this path.
    Local(S),
}

/// A Josh proxy.
pub type JoshProxy = Proxy<String>;

/// The texts of a `JoshProxy`.
pub type ProxyView = Proxy<Seq<char>>;

impl View for Proxy<String> {
    type V = ProxyView;

    open spec fn view(&self) -> ProxyView {
        match *self {
            Proxy::External(url) => Proxy::External(url@),
            Proxy::Local(path) => Proxy::Local(path@),
        }
    }
}

impl Proxy<String> {
    /// Whether somebody else runs the proxy.
    pub fn is_external(&self) -> (r: bool)
        ensures
            r == (self@ is External),
    {
        match self {
            Proxy::External(_) => true,
            Proxy::Local(_) => false,
        }
    }

    /// The same proxy once more.
    pub fn duplicate(&self) -> (proxy: JoshProxy)
        ensures
            proxy@ == self@,
    {
        match self {
            Proxy::External(url) => Proxy::External(url.clone()),
            Proxy::Local(path) => Proxy::Local(path.clone()),
        }
    }
}

/// Where the Josh proxy comes from. `S` holds texts.
#[derive(Debug, PartialEq, Eq)]
pub enum Source<S> {
    /// This proxy.
    Given(Proxy<S>),
    /// A proxy that is installed first.
    Install,
}

/// Where the Josh proxy comes from.
pub type ProxySource = Source<String>;

/// The texts of a `ProxySource`.
pub type SourceView = Source<Seq<char>>;

impl View for Source<String> {
    type V = SourceView;

    open spec fn view(&self) -> SourceView {
        match *self {
            Source::Given(proxy) => Source::Given(proxy@),
            Source::Install => Source::Install,
        }
    }
}

/// Where the Josh proxy comes from: from the URL that the user gives, else from the configured
/// URL, else, outside CI only, from the binary that the user gives or from an installation.
pub open spec fn proxy_source(
    url: Option<Seq<char>>,
    binary: Option<Seq<char>>,
    config: ConfigView,
    inside_ci: bool,
) -> Result<SourceView, Fault<Seq<char>>> {
    let url = if url is Some {
        url
    } else {
        config.proxy_url
    };
    match (url, binary) {
        (Some(_), Some(_)) => Err(Fault::BothProxies),
        (Some(url), None) => Ok(Source::Given(Proxy::External(url))),
        (None, _) if inside_ci => Err(Fault::ProxyUrlNeeded),
        (None, Some(path)) => Ok(Source::Given(Proxy::Local(path))),
        (None, None) => Ok(Source::Install),
    }
}

/// Decides where the Josh proxy comes from, given what the user asks for (`proxy_url` and the
/// path of a binary, `josh_proxy`), the configuration, and whether this is a CI job.
pub fn get_josh_proxy(
    proxy_url: &Option<String>,
    josh_proxy: &Option<String>,
    config: &JoshConfig,
    inside_ci: bool,
) -> (out: Result<ProxySource, SyncError>)
    ensures
        match out {
            Ok(source) => proxy_source(maybe(*proxy_url), maybe(*josh_proxy), config@, inside_ci) == Ok::<
                SourceView,
                Fault<Seq<char>>,
            >(source@),
            Err(fault) => proxy_source(maybe(*proxy_url), maybe(*josh_proxy), config@, inside_ci) == Err::<
                SourceView,
                Fault<Seq<char>>,
            >(fault@),
        },
{
    let url = if proxy_url.is_some() {
        proxy_url
    } else {
        &config.proxy_url
    };
    if let Some(url) = url {
        if josh_proxy.is_some() {
            return Err(Fault::BothProxies);
        }
        return Ok(Source::Given(Proxy::External(url.clone())));
    }
    if inside_ci {
        return Err(Fault::ProxyUrlNeeded);
    }
    match josh_proxy {
        Some(path) => Ok(Source::Given(Proxy::Local(path.clone()))),
        None => Ok(Source::Install),
    }
}

/// What the user is told of a proxy binary that is used.
pub fn using_binary(path: &str) -> (out: String)
    ensures
        out@ == "Using josh-proxy binary from "@ + path@,
{
    let mut out = "Using josh-proxy binary from ".to_owned();
    out.append(path);
    out
}

/// The proxy after an installation that left its binary at `path`, or failed.
pub fn installed_proxy(path: Option<String>) -> (out: Result<JoshProxy, SyncError>)
    ensures
        match out {
            Ok(proxy) => maybe(path) is Some && proxy@ == Proxy::Local(maybe(path)->0),
            Err(fault) => path is None && fault == Fault::<String>::ProxyNotInstalled,
        },
{
    match path {
        Some(path) => Ok(Proxy::Local(path)),
        None => Err(Fault::ProxyNotInstalled),
    }
}

/// In CI nothing is installed and no proxy is started: what comes out is an external proxy or an
/// error.
pub proof fn law_ci_never_starts_a_proxy(
    url: Option<Seq<char>>,
    binary: Option<Seq<char>>,
    config: ConfigView,
)
    ensures
        proxy_source(url, binary, config, true) matches Ok(source) ==> source matches Source::Given(
            Proxy::External(_),
        ),
{
}

/// The user's choice of a proxy URL goes before the configured one.
pub proof fn law_user_url_overrides_config(url: Seq<char>, config: ConfigView, inside_ci: bool)
    ensures
        proxy_source(Some(url), None, config, inside_ci) == Ok::<SourceView, Fault<Seq<char>>>(
            Source::Given(Proxy::External(url)),
        ),
{
}

/// Which proxy is used. A URL, of the user or else of the configuration, goes before everything, and
/// does not go together with a binary. Without a URL a CI job is refused; elsewhere the binary of the
/// user is used, or else one is installed.
pub proof fn law_proxy_choice(
    url: Option<Seq<char>>,
    binary: Option<Seq<char>>,
    config: ConfigView,
    inside_ci: bool,
)
    ensures
        (url is Some || config.proxy_url is Some) && binary is Some ==> proxy_source(url, binary, config, inside_ci)
            == Err::<SourceView, Fault<Seq<char>>>(Fault::BothProxies),
        url is Some && binary is None ==> proxy_source(url, binary, config, inside_ci) == Ok::<
            SourceView,
            Fault<Seq<char>>,
        >(Source::Given(Proxy::External(url->0))),
        url is None && config.proxy_url is Some && binary is None ==> proxy_source(url, binary, config, inside_ci)
            == Ok::<SourceView, Fault<Seq<char>>>(Source::Given(Proxy::External(config.proxy_url->0))),
        url is None && config.proxy_url is None && inside_ci ==> proxy_source(url, binary, config, inside_ci)
            == Err::<SourceView, Fault<Seq<char>>>(Fault::ProxyUrlNeeded),
        url is None && config.proxy_url is None && !inside_ci && binary is Some ==> proxy_source(
            url,
            binary,
            config,
            inside_ci,
        ) == Ok::<SourceView, Fault<Seq<char>>>(Source::Given(Proxy::Local(binary->0))),
        url is None && config.proxy_url is None && !inside_ci && binary is None ==> proxy_source(
            url,
            binary,
            config,
            inside_ci,
        ) == Ok::<SourceView, Fault<Seq<char>>>(Source::Install),
{
}

} // verus!
