//! A fast non-cryptographic hash built on AES rounds, with every step of the
//! digest stated as a mathematical function of the input bytes.

pub mod gxhash;
