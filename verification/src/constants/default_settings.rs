use vstd::prelude::*;

verus! {

/// The fixed parameters of the IP Control protocol.
pub struct DefaultSettings {
    pub encryption_iv_length: usize,
    pub encryption_key_digest: &'static str,
    pub encryption_key_iterations: u32,
    pub encryption_key_length: usize,
    pub encryption_key_salt: [u8; 16],
    /// The form of a key code (`[A-Z0-9]{8}`), as a regular expression.
    pub keycode_format: &'static str,
    pub message_block_size: usize,
    pub message_terminator: char,
    pub response_terminator: char,
    pub network_port: u16,
    pub network_timeout: u64,
    pub network_wol_address: &'static str,
    pub network_wol_port: u16,
}

/// The salt from which the encryption key is derived.
pub open spec fn key_salt() -> Seq<u8> {
    seq![
        0x63u8, 0x61, 0xb8, 0x0e, 0x9b, 0xdc, 0xa6, 0x63, 0x8d, 0x07, 0x20, 0xf2, 0xcc, 0x56,
        0x8f, 0xb9,
    ]
}

impl DefaultSettings {
    /// The protocol's parameters: a 16-byte IV and key, a key derived with
    /// PBKDF2-HMAC-SHA256 in 2^14 iterations from a fixed salt, 16-byte
    /// message blocks, `\r` ending a message and `\n` a reply, TCP port 9761,
    /// and Wake-on-LAN to the broadcast address on port 9.
    pub open spec fn is_default(&self) -> bool {
        &&& self.encryption_iv_length == 16
        &&& self.encryption_key_digest@ == "sha256"@
        &&& self.encryption_key_iterations == 16384
        &&& self.encryption_key_length == 16
        &&& self.encryption_key_salt@ == key_salt()
        &&& self.keycode_format@ == "[A-Z0-9]{8}"@
        &&& self.message_block_size == 16
        &&& self.message_terminator == '\r'
        &&& self.response_terminator == '\n'
        &&& self.network_port == 9761
        &&& self.network_timeout == 5000
        &&& self.network_wol_address@ == "255.255.255.255"@
        &&& self.network_wol_port == 9
    }
}

impl Default for DefaultSettings {
    fn default() -> (s: Self)
        ensures
            s.is_default(),
    {
        let s = Self {
            encryption_iv_length: 16,
            encryption_key_digest: "sha256",
            encryption_key_iterations: 16384,
            encryption_key_length: 16,
            encryption_key_salt: [
                0x63, 0x61, 0xb8, 0x0e, 0x9b, 0xdc, 0xa6, 0x63, 0x8d, 0x07, 0x20, 0xf2, 0xcc, 0x56,
                0x8f, 0xb9,
            ],
            keycode_format: "[A-Z0-9]{8}",
            message_block_size: 16,
            message_terminator: '\r',
            response_terminator: '\n',
            network_port: 9761,
            network_timeout: 5000,
            network_wol_address: "255.255.255.255",
            network_wol_port: 9,
        };
        assert(s.encryption_key_salt@ =~= key_salt());
        s
    }
}

} // verus!
