use crate::utils::constants;
use crate::utils::text::{decimal, decimal_string, str_eq};
use vstd::prelude::*;
use vstd::utf8::encode_utf8;

verus! {

/// The abstract value of a `Configurable`.
pub struct ConfigView<H> {
    pub port: Seq<char>,
    pub host: Seq<char>,
    pub use_default_handler: bool,
    pub debug_mode: bool,
    pub use_default_404: bool,
    pub default_handler: Option<H>,
    pub middleware_limit: usize,
    pub debug_file_path: Seq<char>,
}

/// The settings a new configuration starts with.
pub open spec fn default_config<H>() -> ConfigView<H> {
    ConfigView {
        port: constants::DEFAULT_PORT@,
        host: constants::DEFAULT_HOST@,
        use_default_handler: false,
        debug_mode: false,
        use_default_404: false,
        default_handler: None,
        middleware_limit: constants::MIDDLEWARE_LIMIT,
        debug_file_path: constants::DEBUG_FILE_PATH@,
    }
}

/// The host the server uses when asked for `host`: the loopback address for
/// `localhost` and for names of at most one byte.
pub open spec fn host_setting(host: Seq<char>) -> Seq<char> {
    if encode_utf8(host).len() <= 1 || host == "localhost"@ {
        "127.0.0.1"@
    } else {
        host
    }
}

/// The port the server uses when asked for `port`: ports outside 1024..=49151
/// are replaced by 7878.
pub open spec fn port_setting(port: usize) -> Seq<char> {
    if port <= 1023 || port >= 49152 {
        decimal(7878)
    } else {
        decimal(port as nat)
    }
}

/// holds all the user configuable data for the `Server` type;
/// `H` is the type of the handler functions
pub struct Configurable<H> {
    port: String,
    host: String,
    use_default_handler: bool,
    debug_mode: bool,
    use_default_404: bool,
    default_handler: Option<H>,
    middleware_limit: usize,
    debug_file_path: &'static str,
}

impl<H> View for Configurable<H> {
    type V = ConfigView<H>;

    closed spec fn view(&self) -> ConfigView<H> {
        ConfigView {
            port: self.port@,
            host: self.host@,
            use_default_handler: self.use_default_handler,
            debug_mode: self.debug_mode,
            use_default_404: self.use_default_404,
            default_handler: self.default_handler,
            middleware_limit: self.middleware_limit,
            debug_file_path: self.debug_file_path@,
        }
    }
}

impl<H> Configurable<H> {
    pub fn new() -> (r: Self)
        ensures
            r@ == default_config::<H>(),
    {
        Self {
            port: String::from_str(constants::DEFAULT_PORT),
            host: String::from_str(constants::DEFAULT_HOST),
            use_default_handler: false,
            use_default_404: false,
            debug_mode: false,
            default_handler: None,
            middleware_limit: constants::MIDDLEWARE_LIMIT,
            debug_file_path: constants::DEBUG_FILE_PATH,
        }
    }

    // SETTERS

    ///used to configure the domain/host the http server will use
    pub fn set_host(&mut self, host: &str) -> (r: &mut Self)
        ensures
            r@ == (ConfigView { host: host_setting(host@), ..old(self)@ }),
            *final(self) == *final(r),
    {
        if host.as_bytes().len() <= 1 || str_eq(host, "localhost") {
            self.host = String::from_str("127.0.0.1")
        } else {
            self.host = String::from_str(host)
        }
        self
    }

    ///used to configure the port the http server will use
    pub fn set_port(&mut self, port: usize) -> (r: &mut Self)
        ensures
            r@ == (ConfigView { port: port_setting(port), ..old(self)@ }),
            *final(self) == *final(r),
    {
        if port <= 1023 || port >= 49152 {
            self.port = decimal_string(7878)
        } else {
            self.port = decimal_string(port)
        }
        self
    }

    /// send a default message to client if the handler was not found in the handler map
    pub fn use_default_404_handler(&mut self) -> (r: &mut Self)
        ensures
            r@ == (ConfigView { use_default_404: true, ..old(self)@ }),
            *final(self) == *final(r),
    {
        self.use_default_404 = true;
        self
    }

    ///debug mode is when server will write to a debug file displaying each change in state
    pub fn enable_debug_mode(&mut self) -> (r: &mut Self)
        ensures
            r@ == (ConfigView { debug_mode: true, ..old(self)@ }),
            *final(self) == *final(r),
    {
        self.debug_mode = true;
        self
    }

    /// default handler will parse the request and print it to the console
    pub fn set_default_handler(&mut self, handler: H) -> (r: &mut Self)
        ensures
            r@ == (ConfigView { default_handler: Some(handler), use_default_handler: true, ..old(self)@ }),
            *final(self) == *final(r),
    {
        self.default_handler = Some(handler);
        self.use_default_handler = true;
        self
    }

    /// override the default limit of "5" for allowed middlerwares for a given route
    pub fn set_middleware_limit(&mut self, limit: usize) -> (r: &mut Self)
        ensures
            r@ == (ConfigView { middleware_limit: limit, ..old(self)@ }),
            *final(self) == *final(r),
    {
        self.middleware_limit = limit;
        return self;
    }

    /// override the default location of the debug file
    pub fn set_deubug_file_path(&mut self, path: &'static str) -> (r: &mut Self)
        ensures
            r@ == (ConfigView { debug_file_path: path@, ..old(self)@ }),
            *final(self) == *final(r),
    {
        self.debug_file_path = path;
        return self;
    }

    // GETTERS

    /// display the port set
    pub fn expose_port(&self) -> (r: &str)
        ensures
            r@ == self@.port,
    {
        return self.port.as_str();
    }

    /// display the host set
    pub fn expose_host(&self) -> (r: &str)
        ensures
            r@ == self@.host,
    {
        return self.host.as_str();
    }

    /// Whether every connection goes to the default handler.
    pub fn uses_default_handler(&self) -> (r: bool)
        ensures
            r == self@.use_default_handler,
    {
        self.use_default_handler
    }

    /// Whether the server logs its changes of state.
    pub fn is_debug_mode(&self) -> (r: bool)
        ensures
            r == self@.debug_mode,
    {
        self.debug_mode
    }

    /// Whether unserved uris get the 404 answer.
    pub fn uses_default_404(&self) -> (r: bool)
        ensures
            r == self@.use_default_404,
    {
        self.use_default_404
    }

    /// The user's default handler, if one was set.
    pub fn default_handler(&self) -> (r: Option<H>)
        where H: Copy,
        ensures
            r == self@.default_handler,
    {
        self.default_handler
    }

    /// How many middlewares one uri may have.
    pub fn middleware_limit(&self) -> (r: usize)
        ensures
            r == self@.middleware_limit,
    {
        self.middleware_limit
    }

    /// Where the debug log goes.
    pub fn debug_file_path(&self) -> (r: &'static str)
        ensures
            r@ == self@.debug_file_path,
    {
        self.debug_file_path
    }

    /// The `host:port` address the server listens on.
    pub fn bind_address(&self) -> (r: String)
        ensures
            r@ == self@.host + ":"@ + self@.port,
    {
        let mut addr = String::from_str(self.host.as_str());
        addr.append(":");
        addr.append(self.port.as_str());
        addr
    }
}

/// The server never listens on a privileged or ephemeral port: whatever port
/// is asked for, the port set is one of 1024..=49151, written in decimal.
pub proof fn lemma_port_setting_in_range(port: usize)
    ensures
        exists|q: nat| 1024 <= q <= 49151 && #[trigger] decimal(q) == port_setting(port),
{
    if port <= 1023 || port >= 49152 {
        assert(decimal(7878) == port_setting(port));
    } else {
        assert(decimal(port as nat) == port_setting(port));
    }
}

/// The host set is never `localhost` nor a name of at most one byte, and
/// setting it again to the host already set changes nothing.
pub proof fn lemma_host_setting_normal(host: Seq<char>)
    ensures
        host_setting(host) != "localhost"@,
        encode_utf8(host_setting(host)).len() > 1,
        host_setting(host_setting(host)) == host_setting(host),
{
    reveal_strlit("127.0.0.1");
    reveal_strlit("localhost");
    assert("127.0.0.1"@ != "localhost"@) by {
        assert("127.0.0.1"@[0] != "localhost"@[0]);
    }
    vstd::utf8::is_ascii_chars_encode_utf8("127.0.0.1"@);
}

/// A port in the registered range 1024..=49151 is kept as asked; any other
/// port, system or dynamic, is replaced by 7878.
pub proof fn lemma_port_kept_in_range(port: usize)
    ensures
        1024 <= port <= 49151 ==> port_setting(port) == decimal(port as nat),
        (port < 1024 || port > 49151) ==> port_setting(port) == decimal(7878),
{
}

} // verus!
