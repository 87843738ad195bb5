use std::time::Duration;
use std::time::SystemTime;
use std::time::UNIX_EPOCH;
use tls_verify::anchors::RootCertStore;
use tls_verify::client::AllowAnyAuthenticatedClient;
use tls_verify::client::ClientCertVerifier;
use tls_verify::client::NoClientAuth;
use tls_verify::client::SafeDefaultClientVerifier;
use tls_verify::enums::DigitallySignedStruct;
use tls_verify::enums::SignatureScheme;
use tls_verify::error::TlsError;
use tls_verify::error::WebPkiOp;
use tls_verify::key::Certificate;
use tls_verify::name::DnsName;
use tls_verify::verify::ClientCertVerified;

fn data_ca() -> Vec<u8> {
    vec![
        0x30, 0x82, 0x01, 0x73, 0x30, 0x82, 0x01, 0x19, 0xa0, 0x03, 0x02, 0x01,
        0x02, 0x02, 0x14, 0x22, 0x34, 0x44, 0xf7, 0x24, 0xaf, 0x9b, 0x06, 0x89,
        0x2a, 0x13, 0x73, 0xbe, 0xfa, 0xb6, 0x15, 0xdf, 0x01, 0xdf, 0x6b, 0x30,
        0x0a, 0x06, 0x08, 0x2a, 0x86, 0x48, 0xce, 0x3d, 0x04, 0x03, 0x02, 0x30,
        0x2f, 0x31, 0x16, 0x30, 0x14, 0x06, 0x03, 0x55, 0x04, 0x0a, 0x0c, 0x0d,
        0x45, 0x78, 0x61, 0x6d, 0x70, 0x6c, 0x65, 0x20, 0x54, 0x72, 0x75, 0x73,
        0x74, 0x31, 0x15, 0x30, 0x13, 0x06, 0x03, 0x55, 0x04, 0x03, 0x0c, 0x0c,
        0x45, 0x78, 0x61, 0x6d, 0x70, 0x6c, 0x65, 0x20, 0x52, 0x6f, 0x6f, 0x74,
        0x30, 0x1e, 0x17, 0x0d, 0x32, 0x30, 0x30, 0x31, 0x30, 0x31, 0x30, 0x30,
        0x30, 0x30, 0x30, 0x30, 0x5a, 0x17, 0x0d, 0x34, 0x30, 0x30, 0x31, 0x30,
        0x31, 0x30, 0x30, 0x30, 0x30, 0x30, 0x30, 0x5a, 0x30, 0x2f, 0x31, 0x16,
        0x30, 0x14, 0x06, 0x03, 0x55, 0x04, 0x0a, 0x0c, 0x0d, 0x45, 0x78, 0x61,
        0x6d, 0x70, 0x6c, 0x65, 0x20, 0x54, 0x72, 0x75, 0x73, 0x74, 0x31, 0x15,
        0x30, 0x13, 0x06, 0x03, 0x55, 0x04, 0x03, 0x0c, 0x0c, 0x45, 0x78, 0x61,
        0x6d, 0x70, 0x6c, 0x65, 0x20, 0x52, 0x6f, 0x6f, 0x74, 0x30, 0x59, 0x30,
        0x13, 0x06, 0x07, 0x2a, 0x86, 0x48, 0xce, 0x3d, 0x02, 0x01, 0x06, 0x08,
        0x2a, 0x86, 0x48, 0xce, 0x3d, 0x03, 0x01, 0x07, 0x03, 0x42, 0x00, 0x04,
        0x66, 0x35, 0xd4, 0xb8, 0x68, 0x57, 0xe7, 0xaf, 0x8a, 0x88, 0x2d, 0x96,
        0x2d, 0x21, 0xa5, 0x5a, 0x46, 0x9e, 0x56, 0x9a, 0x87, 0x54, 0x28, 0x82,
        0x53, 0x71, 0xb0, 0xba, 0x09, 0x4b, 0x28, 0x1e, 0x5b, 0xf5, 0xc5, 0x62,
        0xb6, 0x5c, 0x15, 0xdc, 0x13, 0xe6, 0x41, 0x99, 0x04, 0x17, 0x3e, 0x55,
        0xdd, 0x72, 0xb0, 0xc8, 0xe1, 0xda, 0xbf, 0x9e, 0x09, 0x6b, 0x5d, 0x8b,
        0x1d, 0xdc, 0x32, 0x12, 0xa3, 0x13, 0x30, 0x11, 0x30, 0x0f, 0x06, 0x03,
        0x55, 0x1d, 0x13, 0x01, 0x01, 0xff, 0x04, 0x05, 0x30, 0x03, 0x01, 0x01,
        0xff, 0x30, 0x0a, 0x06, 0x08, 0x2a, 0x86, 0x48, 0xce, 0x3d, 0x04, 0x03,
        0x02, 0x03, 0x48, 0x00, 0x30, 0x45, 0x02, 0x20, 0x69, 0xcb, 0x8f, 0xe2,
        0xf3, 0x56, 0x5c, 0x39, 0x03, 0xf6, 0xc7, 0x85, 0x4b, 0x5f, 0x0a, 0x26,
        0xa7, 0x04, 0x05, 0xd8, 0xe5, 0xe4, 0xbe, 0x82, 0x2a, 0xf4, 0xfd, 0x9e,
        0xd0, 0x3f, 0x01, 0x8f, 0x02, 0x21, 0x00, 0xb7, 0xcf, 0x7f, 0x72, 0x02,
        0xcd, 0x8c, 0x42, 0xfc, 0x5d, 0xe3, 0xa6, 0xf7, 0xab, 0xcf, 0xbf, 0x77,
        0xbb, 0x2c, 0xb0, 0xf3, 0x99, 0x4b, 0x0b, 0x44, 0x52, 0x36, 0x9f, 0xe3,
        0x3f, 0x3c, 0x9a,
    ]
}

fn data_ca_subject_der() -> Vec<u8> {
    vec![
        0x30, 0x2f, 0x31, 0x16, 0x30, 0x14, 0x06, 0x03, 0x55, 0x04, 0x0a, 0x0c,
        0x0d, 0x45, 0x78, 0x61, 0x6d, 0x70, 0x6c, 0x65, 0x20, 0x54, 0x72, 0x75,
        0x73, 0x74, 0x31, 0x15, 0x30, 0x13, 0x06, 0x03, 0x55, 0x04, 0x03, 0x0c,
        0x0c, 0x45, 0x78, 0x61, 0x6d, 0x70, 0x6c, 0x65, 0x20, 0x52, 0x6f, 0x6f,
        0x74,
    ]
}

fn data_client() -> Vec<u8> {
    vec![
        0x30, 0x82, 0x01, 0x80, 0x30, 0x82, 0x01, 0x27, 0xa0, 0x03, 0x02, 0x01,
        0x02, 0x02, 0x14, 0x36, 0xe3, 0xc8, 0x2b, 0xa1, 0xd0, 0x81, 0x78, 0x1a,
        0x6a, 0x23, 0xea, 0xd3, 0xf1, 0x24, 0x8c, 0xed, 0xfe, 0x5a, 0x66, 0x30,
        0x0a, 0x06, 0x08, 0x2a, 0x86, 0x48, 0xce, 0x3d, 0x04, 0x03, 0x02, 0x30,
        0x2f, 0x31, 0x16, 0x30, 0x14, 0x06, 0x03, 0x55, 0x04, 0x0a, 0x0c, 0x0d,
        0x45, 0x78, 0x61, 0x6d, 0x70, 0x6c, 0x65, 0x20, 0x54, 0x72, 0x75, 0x73,
        0x74, 0x31, 0x15, 0x30, 0x13, 0x06, 0x03, 0x55, 0x04, 0x03, 0x0c, 0x0c,
        0x45, 0x78, 0x61, 0x6d, 0x70, 0x6c, 0x65, 0x20, 0x52, 0x6f, 0x6f, 0x74,
        0x30, 0x1e, 0x17, 0x0d, 0x32, 0x30, 0x30, 0x31, 0x30, 0x31, 0x30, 0x30,
        0x30, 0x30, 0x30, 0x30, 0x5a, 0x17, 0x0d, 0x34, 0x30, 0x30, 0x31, 0x30,
        0x31, 0x30, 0x30, 0x30, 0x30, 0x30, 0x30, 0x5a, 0x30, 0x2b, 0x31, 0x16,
        0x30, 0x14, 0x06, 0x03, 0x55, 0x04, 0x0a, 0x0c, 0x0d, 0x45, 0x78, 0x61,
        0x6d, 0x70, 0x6c, 0x65, 0x20, 0x54, 0x72, 0x75, 0x73, 0x74, 0x31, 0x11,
        0x30, 0x0f, 0x06, 0x03, 0x55, 0x04, 0x03, 0x0c, 0x08, 0x61, 0x20, 0x63,
        0x6c, 0x69, 0x65, 0x6e, 0x74, 0x30, 0x59, 0x30, 0x13, 0x06, 0x07, 0x2a,
        0x86, 0x48, 0xce, 0x3d, 0x02, 0x01, 0x06, 0x08, 0x2a, 0x86, 0x48, 0xce,
        0x3d, 0x03, 0x01, 0x07, 0x03, 0x42, 0x00, 0x04, 0xf2, 0xc3, 0x4b, 0x0a,
        0x24, 0xfe, 0x1c, 0xd2, 0xb9, 0x36, 0x37, 0x65, 0xef, 0x6f, 0xa7, 0x5e,
        0xcf, 0x4d, 0x31, 0x91, 0x11, 0x33, 0x2c, 0xef, 0xb5, 0x25, 0xce, 0x2a,
        0x1e, 0x4b, 0xa9, 0x5e, 0x0d, 0x67, 0xa7, 0x79, 0x7c, 0xa0, 0x80, 0xf8,
        0x4c, 0xde, 0xf2, 0x9f, 0x1b, 0xe3, 0xce, 0x72, 0xa1, 0x32, 0x9c, 0xef,
        0xb0, 0xd7, 0xfa, 0x41, 0x5a, 0xb5, 0x53, 0x71, 0x85, 0x9c, 0x25, 0xcd,
        0xa3, 0x25, 0x30, 0x23, 0x30, 0x0c, 0x06, 0x03, 0x55, 0x1d, 0x13, 0x01,
        0x01, 0xff, 0x04, 0x02, 0x30, 0x00, 0x30, 0x13, 0x06, 0x03, 0x55, 0x1d,
        0x25, 0x04, 0x0c, 0x30, 0x0a, 0x06, 0x08, 0x2b, 0x06, 0x01, 0x05, 0x05,
        0x07, 0x03, 0x02, 0x30, 0x0a, 0x06, 0x08, 0x2a, 0x86, 0x48, 0xce, 0x3d,
        0x04, 0x03, 0x02, 0x03, 0x47, 0x00, 0x30, 0x44, 0x02, 0x20, 0x11, 0xcd,
        0x43, 0x6b, 0x93, 0x36, 0x29, 0x33, 0x22, 0x7b, 0x51, 0xb9, 0xa3, 0x96,
        0x9b, 0x2e, 0xae, 0x53, 0xdb, 0x2d, 0x16, 0x68, 0xf5, 0x0a, 0x08, 0xcc,
        0x1d, 0xa6, 0xc8, 0x70, 0x80, 0xef, 0x02, 0x20, 0x2b, 0x98, 0x98, 0x79,
        0x93, 0xa5, 0x62, 0xcc, 0x87, 0xbe, 0xe8, 0xc7, 0x68, 0xb9, 0x88, 0x9e,
        0xea, 0x93, 0x93, 0xb6, 0x4b, 0xcc, 0x63, 0x18, 0xb1, 0x67, 0xd7, 0x57,
        0xcd, 0x23, 0x15, 0x62,
    ]
}

fn data_inter() -> Vec<u8> {
    vec![
        0x30, 0x82, 0x01, 0x76, 0x30, 0x82, 0x01, 0x1c, 0xa0, 0x03, 0x02, 0x01,
        0x02, 0x02, 0x14, 0x53, 0x41, 0x64, 0x0a, 0xf4, 0x8f, 0x75, 0xba, 0x37,
        0xc4, 0x83, 0xe7, 0xe8, 0xb9, 0x47, 0x62, 0xe4, 0x39, 0x84, 0x4e, 0x30,
        0x0a, 0x06, 0x08, 0x2a, 0x86, 0x48, 0xce, 0x3d, 0x04, 0x03, 0x02, 0x30,
        0x2f, 0x31, 0x16, 0x30, 0x14, 0x06, 0x03, 0x55, 0x04, 0x0a, 0x0c, 0x0d,
        0x45, 0x78, 0x61, 0x6d, 0x70, 0x6c, 0x65, 0x20, 0x54, 0x72, 0x75, 0x73,
        0x74, 0x31, 0x15, 0x30, 0x13, 0x06, 0x03, 0x55, 0x04, 0x03, 0x0c, 0x0c,
        0x45, 0x78, 0x61, 0x6d, 0x70, 0x6c, 0x65, 0x20, 0x52, 0x6f, 0x6f, 0x74,
        0x30, 0x1e, 0x17, 0x0d, 0x32, 0x30, 0x30, 0x31, 0x30, 0x31, 0x30, 0x30,
        0x30, 0x30, 0x30, 0x30, 0x5a, 0x17, 0x0d, 0x34, 0x30, 0x30, 0x31, 0x30,
        0x31, 0x30, 0x30, 0x30, 0x30, 0x30, 0x30, 0x5a, 0x30, 0x32, 0x31, 0x16,
        0x30, 0x14, 0x06, 0x03, 0x55, 0x04, 0x0a, 0x0c, 0x0d, 0x45, 0x78, 0x61,
        0x6d, 0x70, 0x6c, 0x65, 0x20, 0x54, 0x72, 0x75, 0x73, 0x74, 0x31, 0x18,
        0x30, 0x16, 0x06, 0x03, 0x55, 0x04, 0x03, 0x0c, 0x0f, 0x45, 0x78, 0x61,
        0x6d, 0x70, 0x6c, 0x65, 0x20, 0x49, 0x73, 0x73, 0x75, 0x69, 0x6e, 0x67,
        0x30, 0x59, 0x30, 0x13, 0x06, 0x07, 0x2a, 0x86, 0x48, 0xce, 0x3d, 0x02,
        0x01, 0x06, 0x08, 0x2a, 0x86, 0x48, 0xce, 0x3d, 0x03, 0x01, 0x07, 0x03,
        0x42, 0x00, 0x04, 0xa1, 0xdc, 0xa3, 0x7e, 0x7a, 0x38, 0x04, 0x79, 0x0e,
        0x9c, 0xc6, 0xa4, 0xa2, 0x1e, 0xd0, 0x49, 0xe3, 0xb8, 0x0b, 0x1b, 0x89,
        0x5b, 0xce, 0xdb, 0x86, 0x1a, 0x78, 0x5f, 0x5e, 0x35, 0x2a, 0xda, 0x3f,
        0xfd, 0x00, 0xaf, 0xe4, 0xe6, 0xaa, 0xfc, 0x9c, 0x5e, 0x28, 0xe6, 0x5a,
        0xed, 0xfd, 0x65, 0x05, 0x22, 0xf6, 0x94, 0x4b, 0x69, 0x41, 0x08, 0x16,
        0xdc, 0x28, 0xa7, 0x24, 0xcb, 0xd6, 0x69, 0xa3, 0x13, 0x30, 0x11, 0x30,
        0x0f, 0x06, 0x03, 0x55, 0x1d, 0x13, 0x01, 0x01, 0xff, 0x04, 0x05, 0x30,
        0x03, 0x01, 0x01, 0xff, 0x30, 0x0a, 0x06, 0x08, 0x2a, 0x86, 0x48, 0xce,
        0x3d, 0x04, 0x03, 0x02, 0x03, 0x48, 0x00, 0x30, 0x45, 0x02, 0x21, 0x00,
        0xc3, 0x4d, 0xba, 0xae, 0x82, 0xad, 0x74, 0xd3, 0x4c, 0xd4, 0x21, 0x2e,
        0x4d, 0xa1, 0x9c, 0xe3, 0xb8, 0xb1, 0x28, 0xee, 0xc2, 0xd2, 0x73, 0x61,
        0x21, 0xa7, 0x81, 0xeb, 0x8e, 0x20, 0x40, 0xe7, 0x02, 0x20, 0x4a, 0x0f,
        0xf3, 0x1e, 0xed, 0xf0, 0x29, 0x87, 0x20, 0x85, 0xf5, 0xc7, 0xb9, 0xa6,
        0x97, 0x52, 0x07, 0x51, 0xbb, 0x2c, 0xb1, 0x9f, 0x68, 0xb1, 0x1e, 0x29,
        0x98, 0x98, 0xb2, 0x04, 0x1d, 0x85,
    ]
}

fn data_message() -> Vec<u8> {
    vec![
        0x74, 0x68, 0x65, 0x20, 0x68, 0x61, 0x6e, 0x64, 0x73, 0x68, 0x61, 0x6b,
        0x65, 0x20, 0x73, 0x6f, 0x20, 0x66, 0x61, 0x72,
    ]
}

fn data_other_ca() -> Vec<u8> {
    vec![
        0x30, 0x82, 0x01, 0x6f, 0x30, 0x82, 0x01, 0x15, 0xa0, 0x03, 0x02, 0x01,
        0x02, 0x02, 0x14, 0x5c, 0xde, 0xe6, 0x67, 0x8c, 0x26, 0xd6, 0xd1, 0xf9,
        0xda, 0x20, 0xaa, 0xd7, 0x45, 0xee, 0x7a, 0x68, 0x15, 0x02, 0x01, 0x30,
        0x0a, 0x06, 0x08, 0x2a, 0x86, 0x48, 0xce, 0x3d, 0x04, 0x03, 0x02, 0x30,
        0x2d, 0x31, 0x16, 0x30, 0x14, 0x06, 0x03, 0x55, 0x04, 0x0a, 0x0c, 0x0d,
        0x45, 0x78, 0x61, 0x6d, 0x70, 0x6c, 0x65, 0x20, 0x54, 0x72, 0x75, 0x73,
        0x74, 0x31, 0x13, 0x30, 0x11, 0x06, 0x03, 0x55, 0x04, 0x03, 0x0c, 0x0a,
        0x4f, 0x74, 0x68, 0x65, 0x72, 0x20, 0x52, 0x6f, 0x6f, 0x74, 0x30, 0x1e,
        0x17, 0x0d, 0x32, 0x30, 0x30, 0x31, 0x30, 0x31, 0x30, 0x30, 0x30, 0x30,
        0x30, 0x30, 0x5a, 0x17, 0x0d, 0x34, 0x30, 0x30, 0x31, 0x30, 0x31, 0x30,
        0x30, 0x30, 0x30, 0x30, 0x30, 0x5a, 0x30, 0x2d, 0x31, 0x16, 0x30, 0x14,
        0x06, 0x03, 0x55, 0x04, 0x0a, 0x0c, 0x0d, 0x45, 0x78, 0x61, 0x6d, 0x70,
        0x6c, 0x65, 0x20, 0x54, 0x72, 0x75, 0x73, 0x74, 0x31, 0x13, 0x30, 0x11,
        0x06, 0x03, 0x55, 0x04, 0x03, 0x0c, 0x0a, 0x4f, 0x74, 0x68, 0x65, 0x72,
        0x20, 0x52, 0x6f, 0x6f, 0x74, 0x30, 0x59, 0x30, 0x13, 0x06, 0x07, 0x2a,
        0x86, 0x48, 0xce, 0x3d, 0x02, 0x01, 0x06, 0x08, 0x2a, 0x86, 0x48, 0xce,
        0x3d, 0x03, 0x01, 0x07, 0x03, 0x42, 0x00, 0x04, 0x83, 0x09, 0x89, 0x48,
        0x87, 0xc7, 0x90, 0xd3, 0xf8, 0x26, 0xff, 0x94, 0x97, 0xb3, 0xdf, 0x13,
        0xe3, 0x9c, 0x21, 0xb7, 0x14, 0x10, 0x0a, 0x44, 0xca, 0xb0, 0x0e, 0x55,
        0x4b, 0x34, 0xfa, 0x15, 0xf2, 0xaa, 0x59, 0xc2, 0xb4, 0x93, 0x2e, 0x22,
        0xf5, 0xac, 0x32, 0x33, 0x07, 0x8a, 0xd4, 0x5c, 0xf1, 0xa8, 0x5e, 0x21,
        0xea, 0x75, 0x51, 0x71, 0x00, 0x98, 0x9e, 0xba, 0xce, 0xda, 0x8e, 0xc2,
        0xa3, 0x13, 0x30, 0x11, 0x30, 0x0f, 0x06, 0x03, 0x55, 0x1d, 0x13, 0x01,
        0x01, 0xff, 0x04, 0x05, 0x30, 0x03, 0x01, 0x01, 0xff, 0x30, 0x0a, 0x06,
        0x08, 0x2a, 0x86, 0x48, 0xce, 0x3d, 0x04, 0x03, 0x02, 0x03, 0x48, 0x00,
        0x30, 0x45, 0x02, 0x20, 0x52, 0x57, 0x66, 0xae, 0x4f, 0xa0, 0xbf, 0x04,
        0x71, 0x0b, 0x9c, 0x58, 0x3c, 0x41, 0x50, 0x46, 0xe4, 0xd2, 0x0a, 0xa1,
        0xf6, 0x0d, 0xe5, 0x87, 0x94, 0x1b, 0xc9, 0xc0, 0xae, 0x1a, 0xd8, 0xd4,
        0x02, 0x21, 0x00, 0x88, 0xfd, 0xd7, 0x2b, 0xea, 0xbf, 0x67, 0xfe, 0xb2,
        0xce, 0x5a, 0x92, 0x7b, 0x6c, 0xf7, 0x5d, 0x0a, 0xba, 0x01, 0x16, 0x1e,
        0xbc, 0x53, 0xd3, 0x4d, 0x87, 0xe6, 0xa4, 0xcd, 0x7b, 0x43, 0xcb,
    ]
}

fn data_other_subject_der() -> Vec<u8> {
    vec![
        0x30, 0x2d, 0x31, 0x16, 0x30, 0x14, 0x06, 0x03, 0x55, 0x04, 0x0a, 0x0c,
        0x0d, 0x45, 0x78, 0x61, 0x6d, 0x70, 0x6c, 0x65, 0x20, 0x54, 0x72, 0x75,
        0x73, 0x74, 0x31, 0x13, 0x30, 0x11, 0x06, 0x03, 0x55, 0x04, 0x03, 0x0c,
        0x0a, 0x4f, 0x74, 0x68, 0x65, 0x72, 0x20, 0x52, 0x6f, 0x6f, 0x74,
    ]
}

fn data_p384() -> Vec<u8> {
    vec![
        0x30, 0x82, 0x01, 0xad, 0x30, 0x82, 0x01, 0x54, 0xa0, 0x03, 0x02, 0x01,
        0x02, 0x02, 0x14, 0x46, 0x93, 0xa3, 0x20, 0xfe, 0xc3, 0xc9, 0x3f, 0x53,
        0xbb, 0x48, 0x31, 0xc7, 0xde, 0x0c, 0x23, 0x1e, 0x4b, 0x58, 0x5a, 0x30,
        0x0a, 0x06, 0x08, 0x2a, 0x86, 0x48, 0xce, 0x3d, 0x04, 0x03, 0x02, 0x30,
        0x2f, 0x31, 0x16, 0x30, 0x14, 0x06, 0x03, 0x55, 0x04, 0x0a, 0x0c, 0x0d,
        0x45, 0x78, 0x61, 0x6d, 0x70, 0x6c, 0x65, 0x20, 0x54, 0x72, 0x75, 0x73,
        0x74, 0x31, 0x15, 0x30, 0x13, 0x06, 0x03, 0x55, 0x04, 0x03, 0x0c, 0x0c,
        0x45, 0x78, 0x61, 0x6d, 0x70, 0x6c, 0x65, 0x20, 0x52, 0x6f, 0x6f, 0x74,
        0x30, 0x1e, 0x17, 0x0d, 0x32, 0x30, 0x30, 0x31, 0x30, 0x31, 0x30, 0x30,
        0x30, 0x30, 0x30, 0x30, 0x5a, 0x17, 0x0d, 0x34, 0x30, 0x30, 0x31, 0x30,
        0x31, 0x30, 0x30, 0x30, 0x30, 0x30, 0x30, 0x5a, 0x30, 0x33, 0x31, 0x16,
        0x30, 0x14, 0x06, 0x03, 0x55, 0x04, 0x0a, 0x0c, 0x0d, 0x45, 0x78, 0x61,
        0x6d, 0x70, 0x6c, 0x65, 0x20, 0x54, 0x72, 0x75, 0x73, 0x74, 0x31, 0x19,
        0x30, 0x17, 0x06, 0x03, 0x55, 0x04, 0x03, 0x0c, 0x10, 0x70, 0x33, 0x38,
        0x34, 0x2e, 0x65, 0x78, 0x61, 0x6d, 0x70, 0x6c, 0x65, 0x2e, 0x63, 0x6f,
        0x6d, 0x30, 0x76, 0x30, 0x10, 0x06, 0x07, 0x2a, 0x86, 0x48, 0xce, 0x3d,
        0x02, 0x01, 0x06, 0x05, 0x2b, 0x81, 0x04, 0x00, 0x22, 0x03, 0x62, 0x00,
        0x04, 0xf9, 0x98, 0xcb, 0xdd, 0x53, 0x06, 0x62, 0xf4, 0xf1, 0x32, 0xad,
        0x17, 0xd0, 0x47, 0xb9, 0x2a, 0x27, 0xbf, 0x43, 0xd5, 0x75, 0x07, 0x13,
        0x41, 0xd1, 0x96, 0xe9, 0x70, 0x07, 0x4e, 0x2f, 0xaf, 0x02, 0x96, 0xf3,
        0xc9, 0xf5, 0xd2, 0xe0, 0x2e, 0x2b, 0x4a, 0xb3, 0x56, 0x88, 0xbb, 0xcd,
        0xda, 0x77, 0x85, 0x75, 0x43, 0x0b, 0xfa, 0x53, 0x18, 0x07, 0x41, 0x53,
        0x13, 0x06, 0xa4, 0x45, 0xad, 0xd3, 0x28, 0xed, 0x1a, 0xae, 0x3d, 0x04,
        0x0d, 0xb7, 0xf2, 0x24, 0x2f, 0xe4, 0xa0, 0xaf, 0x31, 0x2c, 0x18, 0x01,
        0x77, 0xd8, 0x11, 0x3b, 0xa2, 0xad, 0x6c, 0x04, 0x70, 0x2c, 0x97, 0xdb,
        0xcf, 0xa3, 0x2d, 0x30, 0x2b, 0x30, 0x0c, 0x06, 0x03, 0x55, 0x1d, 0x13,
        0x01, 0x01, 0xff, 0x04, 0x02, 0x30, 0x00, 0x30, 0x1b, 0x06, 0x03, 0x55,
        0x1d, 0x11, 0x04, 0x14, 0x30, 0x12, 0x82, 0x10, 0x70, 0x33, 0x38, 0x34,
        0x2e, 0x65, 0x78, 0x61, 0x6d, 0x70, 0x6c, 0x65, 0x2e, 0x63, 0x6f, 0x6d,
        0x30, 0x0a, 0x06, 0x08, 0x2a, 0x86, 0x48, 0xce, 0x3d, 0x04, 0x03, 0x02,
        0x03, 0x47, 0x00, 0x30, 0x44, 0x02, 0x20, 0x6e, 0xa6, 0xce, 0x3a, 0x99,
        0xe0, 0xb7, 0xfc, 0x6d, 0xeb, 0xd1, 0x3a, 0x8c, 0xbc, 0xee, 0x23, 0x25,
        0xe3, 0x65, 0x00, 0x10, 0xa9, 0x76, 0x8e, 0x69, 0x54, 0xd7, 0xfb, 0x08,
        0x96, 0xf0, 0x39, 0x02, 0x20, 0x3d, 0xe6, 0xe1, 0x87, 0xf4, 0xdf, 0x10,
        0x2b, 0xec, 0x3a, 0x07, 0xf2, 0xeb, 0x0f, 0xb5, 0xd0, 0xf0, 0x8b, 0x06,
        0x3c, 0xa3, 0xbf, 0xb0, 0x60, 0xb2, 0xf6, 0x74, 0xc8, 0xfc, 0xa0, 0xba,
        0x58,
    ]
}

fn data_server() -> Vec<u8> {
    vec![
        0x30, 0x82, 0x01, 0xb1, 0x30, 0x82, 0x01, 0x56, 0xa0, 0x03, 0x02, 0x01,
        0x02, 0x02, 0x14, 0x14, 0x2a, 0x07, 0xef, 0x84, 0xbb, 0x25, 0x43, 0x12,
        0x74, 0xa2, 0x90, 0xa9, 0x04, 0xd2, 0xea, 0x46, 0xaa, 0x25, 0xf7, 0x30,
        0x0a, 0x06, 0x08, 0x2a, 0x86, 0x48, 0xce, 0x3d, 0x04, 0x03, 0x02, 0x30,
        0x32, 0x31, 0x16, 0x30, 0x14, 0x06, 0x03, 0x55, 0x04, 0x0a, 0x0c, 0x0d,
        0x45, 0x78, 0x61, 0x6d, 0x70, 0x6c, 0x65, 0x20, 0x54, 0x72, 0x75, 0x73,
        0x74, 0x31, 0x18, 0x30, 0x16, 0x06, 0x03, 0x55, 0x04, 0x03, 0x0c, 0x0f,
        0x45, 0x78, 0x61, 0x6d, 0x70, 0x6c, 0x65, 0x20, 0x49, 0x73, 0x73, 0x75,
        0x69, 0x6e, 0x67, 0x30, 0x1e, 0x17, 0x0d, 0x32, 0x30, 0x30, 0x31, 0x30,
        0x31, 0x30, 0x30, 0x30, 0x30, 0x30, 0x30, 0x5a, 0x17, 0x0d, 0x34, 0x30,
        0x30, 0x31, 0x30, 0x31, 0x30, 0x30, 0x30, 0x30, 0x30, 0x30, 0x5a, 0x30,
        0x2e, 0x31, 0x16, 0x30, 0x14, 0x06, 0x03, 0x55, 0x04, 0x0a, 0x0c, 0x0d,
        0x45, 0x78, 0x61, 0x6d, 0x70, 0x6c, 0x65, 0x20, 0x54, 0x72, 0x75, 0x73,
        0x74, 0x31, 0x14, 0x30, 0x12, 0x06, 0x03, 0x55, 0x04, 0x03, 0x0c, 0x0b,
        0x65, 0x78, 0x61, 0x6d, 0x70, 0x6c, 0x65, 0x2e, 0x63, 0x6f, 0x6d, 0x30,
        0x59, 0x30, 0x13, 0x06, 0x07, 0x2a, 0x86, 0x48, 0xce, 0x3d, 0x02, 0x01,
        0x06, 0x08, 0x2a, 0x86, 0x48, 0xce, 0x3d, 0x03, 0x01, 0x07, 0x03, 0x42,
        0x00, 0x04, 0x50, 0xbe, 0x84, 0x34, 0x99, 0xfa, 0x2d, 0x0c, 0xa0, 0x64,
        0xc3, 0x46, 0xbf, 0x3d, 0x29, 0x4b, 0x99, 0xa3, 0x78, 0x99, 0xc0, 0x48,
        0x3e, 0x62, 0x44, 0x2e, 0x76, 0xb4, 0x26, 0x11, 0xb4, 0x51, 0x76, 0x70,
        0x2a, 0x0a, 0x4a, 0x55, 0xf6, 0x8e, 0x4c, 0x9d, 0x1e, 0xd9, 0x7a, 0x5b,
        0xda, 0x1b, 0x40, 0x53, 0xd1, 0x20, 0x7e, 0x52, 0x80, 0x9b, 0xfc, 0xe7,
        0xc4, 0x0b, 0x8d, 0x55, 0xec, 0x99, 0xa3, 0x4e, 0x30, 0x4c, 0x30, 0x0c,
        0x06, 0x03, 0x55, 0x1d, 0x13, 0x01, 0x01, 0xff, 0x04, 0x02, 0x30, 0x00,
        0x30, 0x27, 0x06, 0x03, 0x55, 0x1d, 0x11, 0x04, 0x20, 0x30, 0x1e, 0x82,
        0x0b, 0x65, 0x78, 0x61, 0x6d, 0x70, 0x6c, 0x65, 0x2e, 0x63, 0x6f, 0x6d,
        0x82, 0x0f, 0x77, 0x77, 0x77, 0x2e, 0x65, 0x78, 0x61, 0x6d, 0x70, 0x6c,
        0x65, 0x2e, 0x63, 0x6f, 0x6d, 0x30, 0x13, 0x06, 0x03, 0x55, 0x1d, 0x25,
        0x04, 0x0c, 0x30, 0x0a, 0x06, 0x08, 0x2b, 0x06, 0x01, 0x05, 0x05, 0x07,
        0x03, 0x01, 0x30, 0x0a, 0x06, 0x08, 0x2a, 0x86, 0x48, 0xce, 0x3d, 0x04,
        0x03, 0x02, 0x03, 0x49, 0x00, 0x30, 0x46, 0x02, 0x21, 0x00, 0x95, 0x28,
        0xcc, 0xd6, 0x34, 0xcc, 0x68, 0x99, 0xd8, 0x36, 0x96, 0xd7, 0xcc, 0x8c,
        0xe6, 0x06, 0x4e, 0x97, 0xa4, 0xa7, 0x3b, 0xca, 0x2a, 0xe5, 0x41, 0x60,
        0xa6, 0x87, 0xcb, 0x41, 0x8f, 0xcd, 0x02, 0x21, 0x00, 0xc9, 0xd3, 0xda,
        0x9c, 0x1a, 0x72, 0x0f, 0x06, 0x1d, 0x5e, 0x9d, 0x6c, 0xaf, 0xb3, 0x61,
        0x69, 0x2e, 0x05, 0x12, 0x5e, 0x6d, 0x22, 0x27, 0x64, 0xe2, 0x8c, 0x61,
        0xcf, 0x53, 0x6c, 0x13, 0xdd,
    ]
}

fn data_sig_p384_sha256() -> Vec<u8> {
    vec![
        0x30, 0x65, 0x02, 0x31, 0x00, 0xb2, 0x58, 0x51, 0x83, 0x7a, 0x1e, 0x0e,
        0x90, 0x08, 0x10, 0x6f, 0xfb, 0x04, 0xa7, 0x04, 0x21, 0x7d, 0x1e, 0x79,
        0x87, 0x4f, 0x38, 0x85, 0x6d, 0xf9, 0x28, 0xd2, 0x0b, 0xe7, 0x78, 0xb8,
        0x0c, 0x35, 0xdd, 0x09, 0x77, 0xd8, 0xbd, 0xb4, 0x7a, 0x6a, 0xd9, 0x2c,
        0x50, 0x37, 0x54, 0x04, 0xe5, 0x02, 0x30, 0x4b, 0x0a, 0x40, 0xc4, 0x97,
        0xce, 0x42, 0xdc, 0x6c, 0x6c, 0x67, 0x1b, 0x71, 0x0b, 0xc5, 0x7f, 0x9a,
        0xd4, 0x36, 0x03, 0x51, 0xb7, 0x90, 0x94, 0xbf, 0x63, 0xa1, 0xf0, 0x27,
        0x03, 0x28, 0xa1, 0x13, 0xb4, 0x9d, 0x0b, 0x4c, 0xa2, 0x28, 0xe4, 0x5f,
        0xd9, 0x9c, 0xa7, 0x33, 0x73, 0x0f, 0xda,
    ]
}

fn data_sig_p384_sha384() -> Vec<u8> {
    vec![
        0x30, 0x64, 0x02, 0x30, 0x28, 0x09, 0x2b, 0xa3, 0x43, 0xc0, 0x7d, 0xdf,
        0xbd, 0x01, 0x47, 0x00, 0x52, 0x90, 0xb6, 0x1f, 0x3b, 0xea, 0x69, 0xe8,
        0xbf, 0x4e, 0xac, 0xb0, 0x06, 0xa7, 0x25, 0xcd, 0x37, 0x9c, 0xc6, 0x4a,
        0xbe, 0x85, 0x65, 0x8e, 0xe1, 0x0f, 0x7e, 0x79, 0xf3, 0x28, 0x13, 0x92,
        0x59, 0xbf, 0x47, 0x3e, 0x02, 0x30, 0x63, 0x06, 0xa3, 0xf2, 0xf4, 0x7a,
        0x46, 0x9f, 0x1a, 0x9a, 0x64, 0x84, 0xa7, 0xdc, 0x08, 0x01, 0xe5, 0x5d,
        0xd6, 0xf6, 0xdd, 0xde, 0xcd, 0x6b, 0x5e, 0xa6, 0xb0, 0x4d, 0x64, 0x55,
        0x70, 0x1e, 0x7b, 0x82, 0x0d, 0x5f, 0x8c, 0x69, 0x82, 0xd9, 0x7a, 0xb3,
        0x10, 0xf6, 0x11, 0xb5, 0x6c, 0xac,
    ]
}

const NOT_BEFORE: u64 = 1577836800;
const NOT_AFTER: u64 = 2208988800;

fn at(secs: u64) -> SystemTime {
    UNIX_EPOCH + Duration::from_secs(secs)
}

fn midlife() -> SystemTime {
    at(1_700_000_000)
}

fn store_with(ders: &[Vec<u8>]) -> RootCertStore {
    let mut store = RootCertStore::empty();
    for der in ders {
        store.add(&Certificate(der.clone())).unwrap();
    }
    store
}

fn verify(
    verifier: &dyn ClientCertVerifier,
    end_entity: Vec<u8>,
    intermediates: Vec<Vec<u8>>,
    now: SystemTime,
) -> Result<(), TlsError> {
    let intermediates: Vec<Certificate> = intermediates.into_iter().map(Certificate).collect();
    verifier
        .verify_client_cert(&Certificate(end_entity), &intermediates, None, now)
        .map(|_: ClientCertVerified| ())
}

fn chain_error(e: webpki::Error) -> Result<(), TlsError> {
    Err(TlsError::WebPkiError(e, WebPkiOp::ValidateClientCert))
}

#[test]
fn an_authenticating_verifier_requires_a_certificate() {
    let verifier = AllowAnyAuthenticatedClient::new(store_with(&[data_ca()]));
    assert!(verifier.offer_client_auth());
    assert_eq!(verifier.client_auth_mandatory(None), Some(true));
    let hint = DnsName::try_from_ascii(b"example.com").unwrap();
    assert_eq!(verifier.client_auth_mandatory(Some(&hint)), Some(true));
    assert_eq!(verifier.client_auth_root_subjects(None), Some(vec![data_ca_subject_der()]));
    assert_eq!(verifier.client_auth_root_subjects(Some(&hint)), Some(vec![data_ca_subject_der()]));
}

#[test]
fn a_client_certificate_of_a_trusted_root_verifies() {
    let verifier = AllowAnyAuthenticatedClient::new(store_with(&[data_ca()]));
    assert_eq!(verify(&*verifier, data_client(), Vec::new(), midlife()), Ok(()));
    assert_eq!(verify(&*verifier, data_client(), vec![data_inter()], midlife()), Ok(()));
    assert_eq!(verify(&*verifier, data_p384(), Vec::new(), midlife()), Ok(()));
}

#[test]
fn a_client_certificate_of_no_trusted_root_fails() {
    let verifier = AllowAnyAuthenticatedClient::new(store_with(&[data_other_ca()]));
    assert_eq!(
        verify(&*verifier, data_client(), Vec::new(), midlife()),
        chain_error(webpki::Error::UnknownIssuer)
    );
    let verifier = AllowAnyAuthenticatedClient::new(RootCertStore::empty());
    assert_eq!(
        verify(&*verifier, data_client(), vec![data_ca()], midlife()),
        chain_error(webpki::Error::UnknownIssuer)
    );
}

#[test]
fn a_server_certificate_is_no_client_certificate() {
    let verifier = AllowAnyAuthenticatedClient::new(store_with(&[data_ca()]));
    assert_eq!(
        verify(&*verifier, data_server(), vec![data_inter()], midlife()),
        chain_error(webpki::Error::RequiredEkuNotFound)
    );
}

#[test]
fn a_client_certificate_is_valid_within_its_window_only() {
    let verifier = AllowAnyAuthenticatedClient::new(store_with(&[data_ca()]));
    assert_eq!(verify(&*verifier, data_client(), Vec::new(), at(NOT_BEFORE)), Ok(()));
    assert_eq!(verify(&*verifier, data_client(), Vec::new(), at(NOT_AFTER)), Ok(()));
    assert_eq!(
        verify(&*verifier, data_client(), Vec::new(), at(NOT_BEFORE - 1)),
        chain_error(webpki::Error::CertNotValidYet)
    );
    assert_eq!(
        verify(&*verifier, data_client(), Vec::new(), at(NOT_AFTER + 1)),
        chain_error(webpki::Error::CertExpired)
    );
}

#[test]
fn a_client_certificate_fails_on_a_time_before_the_epoch() {
    let verifier = AllowAnyAuthenticatedClient::new(store_with(&[data_ca()]));
    let now = UNIX_EPOCH - Duration::from_nanos(1);
    assert_eq!(
        verify(&*verifier, data_client(), Vec::new(), now),
        Err(TlsError::FailedToGetCurrentTime)
    );
}

#[test]
fn a_client_certificate_that_does_not_parse_fails() {
    let verifier = AllowAnyAuthenticatedClient::new(store_with(&[data_ca()]));
    assert_eq!(
        verify(&*verifier, vec![0x00], Vec::new(), midlife()),
        Err(TlsError::WebPkiError(webpki::Error::BadDer, WebPkiOp::ParseEndEntity))
    );
}

#[test]
fn a_verifier_without_client_auth_offers_none() {
    let verifier = NoClientAuth::new();
    assert!(!verifier.offer_client_auth());
    assert_eq!(verifier.client_auth_mandatory(None), Some(false));
    assert_eq!(verifier.supported_verify_schemes().len(), 9);
    assert_eq!(verifier.supported_verify_schemes()[0], SignatureScheme::ECDSA_NISTP384_SHA384);
}

#[test]
fn client_verifiers_check_handshake_signatures() {
    let verifier = NoClientAuth::new();
    let message = data_message();
    let cert = Certificate(data_p384());
    let dss = DigitallySignedStruct::new(SignatureScheme::ECDSA_NISTP384_SHA384, data_sig_p384_sha384());
    assert!(verifier.verify_tls12_signature(&message, &cert, &dss).is_ok());
    assert!(verifier.verify_tls13_signature(&message, &cert, &dss).is_ok());
    let dss = DigitallySignedStruct::new(SignatureScheme::ECDSA_NISTP256_SHA256, data_sig_p384_sha256());
    assert!(verifier.verify_tls12_signature(&message, &cert, &dss).is_ok());
    assert_eq!(
        verifier.verify_tls13_signature(&message, &cert, &dss).unwrap_err(),
        TlsError::WebPkiError(
            webpki::Error::UnsupportedSignatureAlgorithmForPublicKey,
            WebPkiOp::VerifySignature
        )
    );
}

#[test]
fn a_switchable_verifier_starts_authenticating_with_an_empty_store() {
    let verifier = SafeDefaultClientVerifier::new();
    assert!(verifier.is_cert_store_empty());
    assert_eq!(verifier.root_cert_store_len(), 0);
    assert_eq!(verifier.root_cert_store_subjects(), Some(Vec::new()));
    assert!(verifier.offer_client_auth());
    assert_eq!(verifier.client_auth_mandatory(None), Some(true));
    assert_eq!(verifier.client_auth_root_subjects(None), Some(Vec::new()));
}

#[test]
fn an_anonymous_verifier_has_no_store_to_change() {
    let mut verifier = SafeDefaultClientVerifier::new();
    assert_eq!(verifier.add_trusted_root_ca(&Certificate(data_ca())), Some(Ok(())));
    verifier.serve_anonymous_clients();
    assert!(!verifier.offer_client_auth());
    assert_eq!(verifier.client_auth_mandatory(None), Some(false));
    assert!(verifier.is_cert_store_empty());
    assert_eq!(verifier.root_cert_store_len(), 0);
    assert_eq!(verifier.root_cert_store_subjects(), None);
    assert_eq!(verifier.add_trusted_root_ca(&Certificate(data_ca())), None);
    assert_eq!(verifier.add_trusted_root_ca(&Certificate(vec![1, 2, 3])), None);
    assert_eq!(verifier.batch_add_certificates(&[data_ca(), vec![0]]), None);
    assert!(!verifier.add_server_trust_anchors(&webpki::TlsServerTrustAnchors(&[])));
    assert!(!verifier.reset_root_cert_store());
    assert!(!verifier.offer_client_auth());
    assert_eq!(verifier.root_cert_store_len(), 0);
    verifier.serve_anonymous_clients();
    assert!(!verifier.offer_client_auth());
}

#[test]
fn anchors_do_not_survive_anonymous_service() {
    let mut verifier = SafeDefaultClientVerifier::new();
    assert_eq!(verifier.batch_add_certificates(&[data_ca(), data_other_ca()]), Some((2, 0)));
    assert_eq!(verifier.root_cert_store_len(), 2);
    verifier.serve_anonymous_clients();
    verifier.serve_only_authenticated_clients();
    assert!(verifier.offer_client_auth());
    assert!(verifier.is_cert_store_empty());
    assert_eq!(verifier.root_cert_store_len(), 0);
    assert_eq!(verifier.root_cert_store_subjects(), Some(Vec::new()));
    assert_eq!(
        verify(&verifier, data_client(), Vec::new(), midlife()),
        chain_error(webpki::Error::UnknownIssuer)
    );
}

#[test]
fn asking_for_authentication_twice_keeps_the_anchors() {
    let mut verifier = SafeDefaultClientVerifier::new();
    assert_eq!(verifier.add_trusted_root_ca(&Certificate(data_ca())), Some(Ok(())));
    assert_eq!(verifier.add_trusted_root_ca(&Certificate(data_other_ca())), Some(Ok(())));
    assert_eq!(verifier.add_trusted_root_ca(&Certificate(data_inter())), Some(Ok(())));
    verifier.serve_only_authenticated_clients();
    assert_eq!(verifier.root_cert_store_len(), 3);
    verifier.serve_only_authenticated_clients();
    assert_eq!(verifier.root_cert_store_len(), 3);
    assert!(!verifier.is_cert_store_empty());
    let subjects = verifier.root_cert_store_subjects().unwrap();
    assert_eq!(subjects[0], data_ca_subject_der());
    assert_eq!(subjects[1], data_other_subject_der());
    assert_eq!(subjects.len(), 3);
    assert_eq!(verify(&verifier, data_client(), Vec::new(), midlife()), Ok(()));
}

#[test]
fn a_malformed_root_is_reported_and_not_added() {
    let mut verifier = SafeDefaultClientVerifier::new();
    assert_eq!(
        verifier.add_trusted_root_ca(&Certificate(vec![0x30, 0x00])),
        Some(Err(webpki::Error::BadDer))
    );
    assert!(verifier.is_cert_store_empty());
    assert_eq!(verifier.add_trusted_root_ca(&Certificate(data_ca())), Some(Ok(())));
    assert_eq!(verifier.root_cert_store_len(), 1);
}

#[test]
fn a_batch_counts_what_it_added_and_what_it_passed_over() {
    let mut verifier = SafeDefaultClientVerifier::new();
    let mut cut = data_other_ca();
    cut.pop();
    let batch = vec![vec![0x30], data_ca(), cut, data_inter(), Vec::new(), data_other_ca(), vec![0xff; 400]];
    let (added, ignored) = verifier.batch_add_certificates(&batch).unwrap();
    assert_eq!((added, ignored), (3, 4));
    assert_eq!(added + ignored, batch.len());
    assert_eq!(verifier.root_cert_store_len(), 3);
    let subjects = verifier.root_cert_store_subjects().unwrap();
    assert_eq!(subjects[0], data_ca_subject_der());
    assert_eq!(subjects[2], data_other_subject_der());
    assert_eq!(verifier.batch_add_certificates(&[]), Some((0, 0)));
    assert_eq!(verifier.batch_add_certificates(&[vec![1]]), Some((0, 1)));
    assert_eq!(verifier.root_cert_store_len(), 3);
}

#[test]
fn borrowed_anchors_are_added_to_the_store() {
    let mut verifier = SafeDefaultClientVerifier::new();
    let ca = data_ca();
    let anchor = webpki::TrustAnchor::try_from_cert_der(&ca).unwrap();
    assert!(verifier.add_server_trust_anchors(&webpki::TlsServerTrustAnchors(&[anchor])));
    assert_eq!(verifier.root_cert_store_len(), 1);
    assert_eq!(verifier.root_cert_store_subjects(), Some(vec![data_ca_subject_der()]));
    assert_eq!(verify(&verifier, data_client(), Vec::new(), midlife()), Ok(()));
    assert!(verifier.add_server_trust_anchors(&webpki::TlsServerTrustAnchors(&[])));
    assert_eq!(verifier.root_cert_store_len(), 1);
}

#[test]
fn a_reset_empties_the_store_and_keeps_the_mode() {
    let mut verifier = SafeDefaultClientVerifier::new();
    assert_eq!(verifier.add_trusted_root_ca(&Certificate(data_ca())), Some(Ok(())));
    assert_eq!(verify(&verifier, data_client(), Vec::new(), midlife()), Ok(()));
    assert!(verifier.reset_root_cert_store());
    assert!(verifier.offer_client_auth());
    assert!(verifier.is_cert_store_empty());
    assert_eq!(
        verify(&verifier, data_client(), Vec::new(), midlife()),
        chain_error(webpki::Error::UnknownIssuer)
    );
    assert!(verifier.reset_root_cert_store());
}

#[test]
fn a_switchable_verifier_verifies_like_an_authenticating_one() {
    let mut verifier = SafeDefaultClientVerifier::new();
    assert_eq!(verifier.add_trusted_root_ca(&Certificate(data_ca())), Some(Ok(())));
    assert_eq!(
        verify(&verifier, data_server(), vec![data_inter()], midlife()),
        chain_error(webpki::Error::RequiredEkuNotFound)
    );
    assert_eq!(
        verify(&verifier, data_client(), Vec::new(), at(NOT_AFTER + 1)),
        chain_error(webpki::Error::CertExpired)
    );
    assert_eq!(
        verify(&verifier, data_client(), Vec::new(), UNIX_EPOCH - Duration::from_secs(5)),
        Err(TlsError::FailedToGetCurrentTime)
    );
    assert_eq!(
        verify(&verifier, Vec::new(), Vec::new(), midlife()),
        Err(TlsError::WebPkiError(webpki::Error::BadDer, WebPkiOp::ParseEndEntity))
    );
    let _: ClientCertVerified = ClientCertVerified::assertion();
}
