pub mod ack;
pub mod packets;
pub mod auth;
pub mod connack;
pub mod connect;
pub mod disconnect;
pub mod ping;
pub mod puback;
pub mod pubcomp;
pub mod publish;
pub mod pubrec;
pub mod pubrel;
pub mod sub_ack;
pub mod suback;
pub mod subscribe;
pub mod unsuback;
pub mod unsubscribe;
