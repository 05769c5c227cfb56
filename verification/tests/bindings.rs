use leaf::bindings::abi::{
    decode_headers, decode_slices, encode_headers, flatten_option, lift_option, post_return_deallocs,
    read_response_at, read_u16, read_u32, records_dealloc, write_response, Dealloc, HeaderRecord,
    ResponseArea, Slice,
};
use leaf::bindings::lift::{lift_headers, lift_request, lift_string, lift_strings};
use leaf::bindings::http_fetch::{read_fetch_result, FetchOptions, HttpError, RedirectPolicy};
use leaf::bindings::kv::{lift_get, lift_list_values, read_kv_result, OpResult};

#[test]
fn little_endian_words() {
    let b = [0x78u8, 0x56, 0x34, 0x12, 0xff, 0x01];
    assert_eq!(read_u32(&b, 0), 0x1234_5678);
    assert_eq!(read_u16(&b, 4), 0x01ff);
}

#[test]
fn response_area_layout() {
    let mut area = vec![0xaau8; 24];
    let r = ResponseArea {
        status: 200,
        headers: Slice { ptr: 0x1000, len: 2 },
        body: Some(Slice { ptr: 0x2000, len: 6 }),
    };
    write_response(&mut area, &r);
    assert_eq!(
        area,
        vec![
            200, 0, 0xaa, 0xaa, 0x00, 0x10, 0, 0, 2, 0, 0, 0, 1, 0xaa, 0xaa, 0xaa, 0x00, 0x20, 0, 0, 6, 0,
            0, 0
        ]
    );
    assert_eq!(read_response_at(&area, 0), r);
    let records = encode_headers(&[
        HeaderRecord { key: Slice { ptr: 0x30, len: 4 }, value: Slice { ptr: 0x40, len: 5 } },
        HeaderRecord { key: Slice { ptr: 0x50, len: 1 }, value: Slice { ptr: 0x60, len: 0 } },
    ]);
    assert_eq!(
        post_return_deallocs(&area, &records),
        vec![
            Dealloc { ptr: 0x30, size: 4, align: 1 },
            Dealloc { ptr: 0x40, size: 5, align: 1 },
            Dealloc { ptr: 0x50, size: 1, align: 1 },
            Dealloc { ptr: 0x60, size: 0, align: 1 },
            Dealloc { ptr: 0x1000, size: 32, align: 4 },
            Dealloc { ptr: 0x2000, size: 6, align: 1 },
        ]
    );
}

#[test]
fn response_area_without_body() {
    let mut area = vec![7u8; 24];
    let r = ResponseArea { status: 404, headers: Slice { ptr: 8, len: 0 }, body: None };
    write_response(&mut area, &r);
    assert_eq!(area[12], 0);
    assert_eq!(&area[16..24], &[7u8; 8]);
    assert_eq!(read_response_at(&area, 0), r);
    assert_eq!(post_return_deallocs(&area, &[]), vec![Dealloc { ptr: 8, size: 0, align: 4 }]);
}

#[test]
fn header_records_roundtrip() {
    let hs = vec![
        HeaderRecord { key: Slice { ptr: 1, len: 2 }, value: Slice { ptr: 3, len: 4 } },
        HeaderRecord { key: Slice { ptr: 0x0102_0304, len: 5 }, value: Slice { ptr: 6, len: 0 } },
    ];
    let bytes = encode_headers(&hs);
    assert_eq!(bytes.len(), 32);
    assert_eq!(&bytes[16..20], &[4, 3, 2, 1]);
    assert_eq!(decode_headers(&bytes, 0, 2), hs);
}

#[test]
fn string_records() {
    let b = [1u8, 0, 0, 0, 5, 0, 0, 0, 9, 0, 0, 0, 0, 0, 0, 0];
    assert_eq!(decode_slices(&b, 0, 2), vec![Slice { ptr: 1, len: 5 }, Slice { ptr: 9, len: 0 }]);
}

#[test]
fn optional_arguments() {
    assert_eq!(flatten_option(Some(Slice { ptr: 4, len: 9 })), (1, 4, 9));
    assert_eq!(flatten_option(None), (0, 0, 0));
    assert_eq!(lift_option(1, 4, 9), Some(Slice { ptr: 4, len: 9 }));
    assert_eq!(lift_option(0, 4, 9), None);
}

#[test]
fn fetch_results() {
    let mut ok = vec![0u8; 28];
    ok[4] = 0x2d;
    ok[5] = 0x01;
    ok[8] = 16;
    ok[12] = 3;
    ok[20] = 1;
    let r = read_fetch_result(&ok).unwrap();
    assert_eq!(r.status, 301);
    assert_eq!(r.headers, Slice { ptr: 16, len: 3 });
    assert_eq!(r.body, None);
    let mut err = vec![0u8; 28];
    err[0] = 1;
    err[4] = 5;
    assert_eq!(read_fetch_result(&err), Err(HttpError::InvalidRequest));
    err[4] = 1;
    assert_eq!(read_fetch_result(&err), Err(HttpError::Timeout));
    let mut with_body = vec![0u8; 28];
    with_body[4] = 200;
    with_body[16] = 1;
    with_body[20] = 0x40;
    with_body[24] = 7;
    let r = read_fetch_result(&with_body).unwrap();
    assert_eq!(r.body, Some(Slice { ptr: 0x40, len: 7 }));
}

#[test]
fn http_error_names_and_codes() {
    let all = [
        (HttpError::NetworkError, "network-error"),
        (HttpError::Timeout, "timeout"),
        (HttpError::InvalidUrl, "invalid-url"),
        (HttpError::DestinationNotAllowed, "destination-not-allowed"),
        (HttpError::TooManyRequests, "too-many-requests"),
        (HttpError::InvalidRequest, "invalid-request"),
    ];
    for (i, (e, name)) in all.iter().enumerate() {
        assert_eq!(e.name(), *name);
        assert_eq!(e.message(), "");
        assert_eq!(e.code() as usize, i);
        assert_eq!(HttpError::from_code(e.code()), Some(*e));
    }
    assert_eq!(HttpError::from_code(6), None);
}

#[test]
fn fetch_options_flat() {
    let o = FetchOptions { timeout: 30, decompress: true, redirect: RedirectPolicy::Manual };
    assert_eq!(o.flatten(), (30, 1, 2));
    let o = FetchOptions { timeout: 5, decompress: false, redirect: RedirectPolicy::Follow };
    assert_eq!(o.flatten(), (5, 0, 0));
    assert_eq!(RedirectPolicy::Error.code(), 1);
}

#[test]
fn kv_outcomes() {
    assert_eq!(OpResult::Success.name(), "success");
    assert_eq!(OpResult::Error.name(), "error");
    assert_eq!(OpResult::Error.message(), "");
    assert_eq!(OpResult::from_code(0), OpResult::Success);
    assert_eq!(OpResult::from_code(1), OpResult::Error);
    let area = [0u8, 0, 0, 0, 0x10, 0, 0, 0, 3, 0, 0, 0];
    assert_eq!(read_kv_result(&area), Ok(Slice { ptr: 0x10, len: 3 }));
    let area = [1u8, 0, 0, 0, 1, 0, 0, 0, 0, 0, 0, 0];
    assert_eq!(read_kv_result(&area), Err(OpResult::Error));
    let area = [1u8, 0, 0, 0, 0, 0, 0, 0, 0, 0, 0, 0];
    assert_eq!(read_kv_result(&area), Err(OpResult::Success));
}

#[test]
fn utf8_texts() {
    assert_eq!(lift_string("héllo".as_bytes().to_vec()), "héllo");
    assert_eq!(
        lift_strings(&[b"a".to_vec(), Vec::new(), "ü".as_bytes().to_vec()]),
        vec!["a".to_string(), String::new(), "ü".to_string()]
    );
    assert_eq!(
        lift_headers(&[(b"X-Request-Method".to_vec(), b"GET".to_vec()), (b"k".to_vec(), b"v".to_vec())]),
        vec![
            ("X-Request-Method".to_string(), "GET".to_string()),
            ("k".to_string(), "v".to_string())
        ]
    );
}

#[test]
fn handler_requests() {
    let hs = [(b"X-Request-Url".to_vec(), b"/abc".to_vec())];
    let r = lift_request(10, b"GET".to_vec(), b"/abc".to_vec(), &hs, 1, b"xxxyyy".to_vec());
    assert_eq!(r.request_id, 10);
    assert_eq!(r.method, "GET");
    assert_eq!(r.uri, "/abc");
    assert_eq!(r.headers, vec![("X-Request-Url".to_string(), "/abc".to_string())]);
    assert_eq!(r.body, Some(b"xxxyyy".to_vec()));
    let r = lift_request(11, b"POST".to_vec(), b"/".to_vec(), &[], 0, b"ignored".to_vec());
    assert_eq!(r.body, None);
    assert!(r.headers.is_empty());
}

#[test]
fn record_lists_given_back() {
    assert_eq!(records_dealloc(Slice { ptr: 0x100, len: 3 }, 8), Dealloc { ptr: 0x100, size: 24, align: 4 });
    assert_eq!(
        records_dealloc(Slice { ptr: 0x200, len: 2 }, 16),
        Dealloc { ptr: 0x200, size: 32, align: 4 }
    );
    assert_eq!(
        records_dealloc(Slice { ptr: 4, len: u32::MAX }, 16),
        Dealloc { ptr: 4, size: 16 * u32::MAX as u64, align: 4 }
    );
}

#[test]
fn kv_results_from_memory() {
    let mut mem = b"hello".to_vec();
    mem.extend_from_slice("wörld".as_bytes());
    mem.resize(16, 0);
    mem.extend_from_slice(&[0, 0, 0, 0, 5, 0, 0, 0, 5, 0, 0, 0, 6, 0, 0, 0]);
    let get_area = [0u8, 0, 0, 0, 5, 0, 0, 0, 6, 0, 0, 0];
    assert_eq!(lift_get(&get_area, &mem), Ok("wörld".to_string()));
    let failed = [1u8, 0, 0, 0, 1, 0, 0, 0, 0, 0, 0, 0];
    assert_eq!(lift_get(&failed, &mem), Err(OpResult::Error));
    let list_area = [0u8, 0, 0, 0, 16, 0, 0, 0, 2, 0, 0, 0];
    let (texts, block) = lift_list_values(&list_area, &mem).unwrap();
    assert_eq!(texts, vec!["hello".to_string(), "wörld".to_string()]);
    assert_eq!(block, Dealloc { ptr: 16, size: 16, align: 4 });
    assert!(matches!(lift_list_values(&failed, &mem), Err(OpResult::Error)));
}
