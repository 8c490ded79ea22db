use senscale::msg::{Client, ReloadParams, Server, ThreadMessage};
use senscale::thread_id::ThreadId;

const STOP_TAG: u64 = 0x1F6D1;
const RELOAD_TAG: u64 = 0x267B;
const RUNNING_TAG: u64 = 0x1F3C3;
const PRINTED_TAG: u64 = 0x1F5A8;

#[test]
fn test_reload_params_repr() {
    assert_eq!(
        ReloadParams::decode(-111111, true),
        ReloadParams {
            thread: ThreadId(111111),
            print: false
        }
    );

    // A 32-bit payload word cannot carry the flag: the same bits read back
    // as a verbatim identity with `print` forced on.
    let id: i64 = -111111;
    assert_eq!(
        ReloadParams::decode(id, false),
        ReloadParams {
            thread: ThreadId(id as u32),
            print: true
        }
    );
}

#[test]
fn reload_params_encode_wide() {
    let params = ReloadParams {
        thread: ThreadId(111111),
        print: false,
    };
    assert_eq!(params.encode(true), -111111);

    let printing = ReloadParams {
        thread: ThreadId(111111),
        print: true,
    };
    assert_eq!(printing.encode(true), 111111);
}

#[test]
fn reload_params_encode_narrow() {
    let params = ReloadParams {
        thread: ThreadId(111111),
        print: false,
    };
    // The flag cannot be encoded on a narrow word; the identity goes out
    // verbatim.
    assert_eq!(params.encode(false), 111111);
}

#[test]
fn server_round_trip_wide() {
    for msg in [
        Server::Stop,
        Server::Reload {
            params: ReloadParams {
                thread: ThreadId(21),
                print: true,
            },
        },
        Server::Reload {
            params: ReloadParams {
                thread: ThreadId(u32::MAX),
                print: false,
            },
        },
    ] {
        let (tag, param) = msg.as_raw(true);
        assert_eq!(<Server as ThreadMessage>::try_from(tag, param, true), Some(msg));
    }
}

#[test]
fn server_round_trip_narrow() {
    let (tag, param) = Server::Stop.as_raw(false);
    assert_eq!(<Server as ThreadMessage>::try_from(tag, param, false), Some(Server::Stop));

    // On a narrow platform a reload decodes with `print` always true.
    let msg = Server::Reload {
        params: ReloadParams {
            thread: ThreadId(21),
            print: false,
        },
    };
    let (tag, param) = msg.as_raw(false);
    assert_eq!(
        <Server as ThreadMessage>::try_from(tag, param, false),
        Some(Server::Reload {
            params: ReloadParams {
                thread: ThreadId(21),
                print: true,
            },
        })
    );
}

#[test]
fn client_round_trip() {
    for wide in [true, false] {
        for msg in [
            Client::Running {
                msg_thread: ThreadId(21),
            },
            Client::Running {
                msg_thread: ThreadId(u32::MAX),
            },
            Client::Printed,
        ] {
            let (tag, param) = msg.as_raw(wide);
            assert_eq!(<Client as ThreadMessage>::try_from(tag, param, wide), Some(msg));
        }
    }
}

#[test]
fn wire_tags() {
    assert_eq!(Server::Stop.as_raw(true), (STOP_TAG, 0));
    let reload = Server::Reload {
        params: ReloadParams {
            thread: ThreadId(7),
            print: true,
        },
    };
    assert_eq!(reload.as_raw(true), (RELOAD_TAG, 7));
    let running = Client::Running {
        msg_thread: ThreadId(7),
    };
    assert_eq!(running.as_raw(true), (RUNNING_TAG, 7));
    assert_eq!(Client::Printed.as_raw(true), (PRINTED_TAG, 0));
}

#[test]
fn unknown_tags_pass_through() {
    // Other OS traffic shares the delivery mechanism; a foreign tag must
    // decode to nothing so it can be redispatched.
    assert_eq!(<Server as ThreadMessage>::try_from(0x111, 5, true), None);
    assert_eq!(<Client as ThreadMessage>::try_from(0x111, 5, true), None);
    // The vocabularies are disjoint.
    assert_eq!(<Server as ThreadMessage>::try_from(RUNNING_TAG, 5, true), None);
    assert_eq!(<Client as ThreadMessage>::try_from(STOP_TAG, 0, true), None);
}

#[test]
fn decode_extreme_payloads() {
    // Decoding must be total: the wire can carry any word.
    assert_eq!(
        ReloadParams::decode(i64::MIN, true),
        ReloadParams {
            thread: ThreadId(0),
            print: false
        }
    );
    assert_eq!(
        ReloadParams::decode(i64::MAX, true),
        ReloadParams {
            thread: ThreadId(u32::MAX),
            print: true
        }
    );
}
