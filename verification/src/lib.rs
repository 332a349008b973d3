//! Wire-level core of a device-data distribution protocol: message framing
//! with padding arithmetic, big-endian primitive (de)serialization, numeric
//! ID translation between peers, message dispatch, the handshake cookie, and
//! a heartbeat monitor.

pub mod buffer;
pub mod codec;
pub mod connection;
pub mod constants;
pub mod cookie;
pub mod dispatcher;
pub mod endian;
pub mod endpoint;
pub mod error;
pub mod framing;
pub mod message;
pub mod ping;
pub mod size;
pub mod time;
pub mod translation;
pub mod types;

pub use codec::ConstantBufferSize;
pub use codec::Decodable;
pub use codec::Encodable;
pub use codec::from_buf;
pub use codec::to_bytes;
pub use connection::ConnectionIP;
pub use connection::LogFileNames;
pub use connection::make_log_names;
pub use connection::make_none_log_names;
pub use cookie::CookieData;
pub use cookie::Version;
pub use cookie::read_and_check_nonfile_cookie;
pub use dispatcher::HandlerEntry;
pub use dispatcher::HandlerHandle;
pub use dispatcher::RouteResult;
pub use dispatcher::TypeDispatcher;
pub use endpoint::Endpoint;
pub use endpoint::InnerDescription;
pub use endpoint::OutboundMessage;
pub use endpoint::SystemMessage;
pub use endpoint::description_message;
pub use endpoint::system_change_message;
pub use endpoint::TranslationTables;
pub use error::BytesRequired;
pub use error::Error;
pub use framing::MAX_LENGTH_FIELD;
pub use message::GenericBody;
pub use message::GenericMessage;
pub use message::Message;
pub use message::MessageBody;
pub use message::MessageHeader;
pub use message::MessageTypeIdentifier;
pub use message::SequencedGenericMessage;
pub use message::SequencedMessage;
pub use message::TypedMessageBody;
pub use message::make_message_body_generic;
pub use message::make_sequenced_message_body_generic;
pub use message::unbuffer_typed_message_body;
pub use ping::PingMonitor;
pub use ping::PingStatus;
pub use ping::ping_message;
pub use ping::pong_message;
pub use time::TimeVal;
pub use translation::TranslationEntry;
pub use translation::TranslationTable;
pub use types::ClassOfService;
pub use types::BaseTypeSafeId;
pub use types::BaseTypeSafeIdName;
pub use types::IdType;
pub use types::IntoId;
pub use types::LocalId;
pub use types::RemoteId;
pub use types::SenderId;
pub use types::SenderName;
pub use types::SequenceNumber;
pub use types::Sensor;
pub use types::StaticSenderName;
pub use types::StaticTypeName;
pub use types::TypeId;
pub use types::TypeName;
pub use types::TypeSafeId;
pub use types::id_filter_matches;

pub use size::LengthField;
pub use size::MessageSize;
