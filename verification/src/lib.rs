//! Bridge between a mesh-network message daemon and application-level
//! message handlers.
//!
//! The crate models the registration-and-routing layer of a mesh client:
//! applications register a tree of elements with the daemon's object bus,
//! inbound raw payloads are decoded into envelopes and demultiplexed per
//! element, and outbound typed messages are framed for publication.

mod access;
mod application;
mod agent;
mod address;
mod element;
mod node;
mod opcode;
mod models;
mod provisioner;
mod registry;
mod sink;
mod types;

pub use access::AccessPayload;
pub use access::MAX_ACCESS_PAYLOAD;
pub use access::lemma_payload_roundtrip;
pub use address::Address;
pub use address::UnicastAddress;
pub use agent::ProvisionAgent;
pub use application::Application;
pub use application::ApplicationHandle;
pub use application::RegisteredApplication;
pub use application::agent_path_view;
pub use application::has_path;
pub use application::lemma_register_release_not_found;
pub use application::register_object_at;
pub use application::register_path_views;
pub use application::register_viable;
pub use agent::hex_decode_spec;
pub use agent::hex_valid;
pub use agent::trim_spec;
pub use element::ControlError;
pub use element::Element;
pub use element::ElementControl;
pub use element::ElementControlHandle;
pub use element::ElementMessage;
pub use element::RegisteredElement;
pub use element::ReqError;
pub use element::ReqResult;
pub use element::element_control;
pub use element::key_index_spec;
pub use element::lemma_capacity_one_backpressure;
pub use element::sig_model_ids;
pub use element::vendor_model_ids;
pub use node::Node;
pub use node::PublishFrame;
pub use node::encode_access;
pub use models::PropertyId;
pub use models::SensorDescriptor;
pub use models::SensorMessage;
pub use models::SensorModel;
pub use models::SensorStatus;
pub use models::Temperature;
pub use models::VendorMessage;
pub use models::VendorModel;
pub use models::lemma_sensor_parse_roundtrip;
pub use models::sensor_parse_spec;
pub use models::vendor_opcode_matches;
pub use opcode::Opcode;
pub use provisioner::Provisioner;
pub use provisioner::ProvisionerControlHandle;
pub use provisioner::ProvisionerMessage;
pub use provisioner::RegisteredProvisioner;
pub use registry::DispatchError;
pub use registry::RegisterError;
pub use registry::RegisteredObject;
pub use registry::RegistrationTable;
pub use registry::find_index;
pub use registry::lookup;
pub use opcode::lemma_opcode_parse_exact;
pub use opcode::lemma_opcode_roundtrip;
pub use sink::sink_bytes;
pub use types::ConcreteMessage;
pub use types::ConcreteModel;
pub use types::EncodeError;
pub use types::FromDrogue;
pub use types::Message;
pub use types::Model;
pub use types::ModelMessage;
pub use types::model_info;
pub use types::ModelIdentifier;
pub use types::ModelInfo;
pub use types::ParseError;
