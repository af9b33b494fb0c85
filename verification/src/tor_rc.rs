//! The torrc renderer. For each hidden service it emits
//!
//! ```text
//! HiddenServiceDir <service-directory>
//! HiddenServicePort <service-port> <host-address>:<host-port>
//! ```
//!
//! with a single newline between lines and no trailing newline.
//!
//! The `TorRc` value mirrors the file on disk, like `Pid` does: the caller
//! that owns the real file persists the rendered contents after `save` and
//! removes the file on teardown.

use crate::text::dec_string;
use crate::text::u64_to_string;
use vstd::prelude::*;
use vstd::string::*;

verus! {

pub struct TorRcServiceModel {
    pub service_directory: Seq<char>,
    pub service_port: u16,
    pub host_address: Seq<char>,
    pub host_port: u16,
}

/// The rendered form of one hidden service: its directory resolved to an
/// absolute path under the working directory.
pub struct TorRcHiddenServiceConfiguration {
    pub service_directory: String,
    pub service_port: u16,
    pub host_address: String,
    pub host_port: u16,
}

impl View for TorRcHiddenServiceConfiguration {
    type V = TorRcServiceModel;

    open spec fn view(&self) -> TorRcServiceModel {
        TorRcServiceModel {
            service_directory: self.service_directory@,
            service_port: self.service_port,
            host_address: self.host_address@,
            host_port: self.host_port,
        }
    }
}

impl DeepView for TorRcHiddenServiceConfiguration {
    type V = TorRcServiceModel;

    open spec fn deep_view(&self) -> TorRcServiceModel {
        self.view()
    }
}

pub struct TorRcConfiguration {
    pub hidden_services: Vec<TorRcHiddenServiceConfiguration>,
}

impl View for TorRcConfiguration {
    type V = Seq<TorRcServiceModel>;

    open spec fn view(&self) -> Seq<TorRcServiceModel> {
        self.hidden_services.deep_view()
    }
}

/// The two lines for one hidden service.
pub open spec fn render_hidden_service(s: TorRcServiceModel) -> Seq<char> {
    "HiddenServiceDir "@ + s.service_directory + "\n"@ + "HiddenServicePort "@ + dec_string(
        s.service_port as nat,
    ) + " "@ + s.host_address + ":"@ + dec_string(s.host_port as nat)
}

/// The whole file: services in input order, separated by single newlines,
/// with no trailing newline.
pub open spec fn render_configuration(services: Seq<TorRcServiceModel>) -> Seq<char>
    decreases services.len(),
{
    if services.len() == 0 {
        Seq::empty()
    } else if services.len() == 1 {
        render_hidden_service(services[0])
    } else {
        render_configuration(services.drop_last()) + "\n"@ + render_hidden_service(services.last())
    }
}

/// Renders a configuration to the canonical torrc text.
pub fn render(configuration: &TorRcConfiguration) -> (r: String)
    ensures
        r@ == render_configuration(configuration@),
{
    let ghost services = configuration@;
    let mut out = String::new();
    let n = configuration.hidden_services.len();
    let mut i: usize = 0;
    while i < n
        invariant
            i <= n,
            n == services.len(),
            services == configuration@,
            out@ == render_configuration(services.take(i as int)),
        decreases n - i,
    {
        let hs = &configuration.hidden_services[i];
        proof {
            assert(services[i as int] == hs@);
            assert(services.take(i as int + 1).drop_last() =~= services.take(i as int));
            assert(services.take(i as int + 1).last() == services[i as int]);
        }
        if i > 0 {
            out.append("\n");
        }
        out.append("HiddenServiceDir ");
        out.append(hs.service_directory.as_str());
        out.append("\n");
        out.append("HiddenServicePort ");
        let service_port = u64_to_string(hs.service_port as u64);
        out.append(service_port.as_str());
        out.append(" ");
        out.append(hs.host_address.as_str());
        out.append(":");
        let host_port = u64_to_string(hs.host_port as u64);
        out.append(host_port.as_str());
        proof {
            assert(out@ =~= render_configuration(services.take(i as int + 1)));
        }
        i = i + 1;
    }
    proof {
        assert(services.take(n as int) =~= services);
    }
    out
}

pub struct TorRcModel {
    pub path: Seq<char>,
    pub contents: Option<Seq<char>>,
}

pub struct TorRc {
    path: String,
    contents: Option<String>,
}

impl View for TorRc {
    type V = TorRcModel;

    closed spec fn view(&self) -> TorRcModel {
        TorRcModel {
            path: self.path@,
            contents: match self.contents {
                None => None,
                Some(ref s) => Some(s@),
            },
        }
    }
}

impl TorRc {
    /// A renderer for the file at `path`; nothing is written yet.
    pub fn new(path: String) -> (r: TorRc)
        ensures
            r@.path == path@,
            r@.contents is None,
    {
        TorRc { path, contents: None }
    }

    /// Replaces the whole file with the canonical rendering of
    /// `configuration`.
    pub fn save(&mut self, configuration: &TorRcConfiguration)
        ensures
            final(self)@.path == old(self)@.path,
            final(self)@.contents == Some(render_configuration(configuration@)),
    {
        self.contents = Some(render(configuration));
    }

    /// Removes the file, whether or not it existed.
    pub fn delete(&mut self)
        ensures
            final(self)@.path == old(self)@.path,
            final(self)@.contents is None,
    {
        self.contents = None;
    }

    /// The mirrored file contents, for the owner of the real file to persist.
    pub fn contents(&self) -> (r: &Option<String>)
        ensures
            r is Some <==> self@.contents is Some,
            r matches Some(s) ==> self@.contents == Some(s@),
    {
        &self.contents
    }

    pub fn path(&self) -> (r: &String)
        ensures
            r@ == self@.path,
    {
        &self.path
    }
}

} // verus!
