use vstd::prelude::*;

verus! {

/// A version of the HTTP protocol, such as 1.1 or 2.0.
#[derive(Debug, Clone, Copy, PartialEq, Eq, Structural)]
pub struct HttpVersion {
    pub major: u8,
    pub minor: u8,
}

/// The parameters of an HTTP measurement.
#[derive(Debug)]
pub struct HttpConfig {
    pub path: String,
    pub header_bytes: u32,
    pub port: u16,
    pub version: HttpVersion,
    pub method: String,
}

/// Collects the parameters of an HTTP measurement one by one. Texts start
/// empty and numbers at zero.
#[derive(Debug)]
pub struct HttpConfigBuilder {
    pub path: String,
    pub header_bytes: u32,
    pub port: u16,
    pub version: HttpVersion,
    pub method: String,
}

impl Default for HttpConfigBuilder {
    fn default() -> (r: Self)
        ensures
            r.is_blank(),
    {
        HttpConfigBuilder::new()
    }
}

impl HttpConfigBuilder {
    /// Nothing has been set: texts are empty and numbers zero.
    pub open spec fn is_blank(&self) -> bool {
        &&& self.path@.len() == 0
        &&& self.header_bytes == 0
        &&& self.port == 0
        &&& self.version == (HttpVersion { major: 0, minor: 0 })
        &&& self.method@.len() == 0
    }

    pub fn new() -> (r: Self)
        ensures
            r.is_blank(),
    {
        HttpConfigBuilder {
            path: String::new(),
            header_bytes: 0,
            port: 0,
            version: HttpVersion { major: 0, minor: 0 },
            method: String::new(),
        }
    }

    pub fn path(self, val: String) -> (r: Self)
        ensures
            r == (HttpConfigBuilder { path: val, ..self }),
    {
        HttpConfigBuilder { path: val, ..self }
    }

    pub fn header_bytes(self, val: u32) -> (r: Self)
        ensures
            r == (HttpConfigBuilder { header_bytes: val, ..self }),
    {
        HttpConfigBuilder { header_bytes: val, ..self }
    }

    pub fn port(self, val: u16) -> (r: Self)
        ensures
            r == (HttpConfigBuilder { port: val, ..self }),
    {
        HttpConfigBuilder { port: val, ..self }
    }

    pub fn version(self, val: HttpVersion) -> (r: Self)
        ensures
            r == (HttpConfigBuilder { version: val, ..self }),
    {
        HttpConfigBuilder { version: val, ..self }
    }

    pub fn method(self, val: String) -> (r: Self)
        ensures
            r == (HttpConfigBuilder { method: val, ..self }),
    {
        HttpConfigBuilder { method: val, ..self }
    }

    /// The collected parameters. Nothing is validated, so this never fails.
    pub fn build(self) -> (config: Result<HttpConfig, &'static str>)
        ensures
            config == Ok::<HttpConfig, &'static str>(
                HttpConfig {
                    path: self.path,
                    header_bytes: self.header_bytes,
                    port: self.port,
                    version: self.version,
                    method: self.method,
                },
            ),
    {
        Ok(
            HttpConfig {
                path: self.path,
                header_bytes: self.header_bytes,
                port: self.port,
                version: self.version,
                method: self.method,
            },
        )
    }
}

} // verus!
