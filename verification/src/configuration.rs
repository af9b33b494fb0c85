//! The typed configuration the controller consumes: an ordered list of
//! hidden services.

use vstd::prelude::*;

verus! {

/// What a hidden service is mathematically.
pub struct HiddenServiceModel {
    pub service_name: Seq<char>,
    pub service_port: u16,
    pub host_address: Seq<char>,
    pub host_port: u16,
}

pub struct HiddenService {
    pub service_name: String,
    pub service_port: u16,
    pub host_address: String,
    pub host_port: u16,
}

impl View for HiddenService {
    type V = HiddenServiceModel;

    open spec fn view(&self) -> HiddenServiceModel {
        HiddenServiceModel {
            service_name: self.service_name@,
            service_port: self.service_port,
            host_address: self.host_address@,
            host_port: self.host_port,
        }
    }
}

impl DeepView for HiddenService {
    type V = HiddenServiceModel;

    open spec fn deep_view(&self) -> HiddenServiceModel {
        self.view()
    }
}

/// An ordered sequence of hidden services; order is preserved when the
/// configuration is rendered.
pub struct Configuration {
    pub hidden_services: Vec<HiddenService>,
}

impl View for Configuration {
    type V = Seq<HiddenServiceModel>;

    open spec fn view(&self) -> Seq<HiddenServiceModel> {
        self.hidden_services.deep_view()
    }
}

} // verus!
