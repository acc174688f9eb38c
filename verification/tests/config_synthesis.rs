use proxy_core::config::error::{ConfigError, Section, SynthesisError};
use proxy_core::config::store::{
    DnsRow, EndpointRow, GrpcRow, Http2Row, InboundRow, KcpRow, LogRow, OutboundRow, QuicRow,
    ServerRow, SettingsStore, ShadowsocksRow, StreamRow, TcpRow, TlsRow, UserGroupRow,
    VmessUserRow, VnextRow, WsRow,
};
use proxy_core::config::synth::{finish_config, generate_config, synthesize};

fn empty_store() -> SettingsStore {
    SettingsStore {
        user_groups: vec![],
        endpoints: vec![],
        logs: vec![],
        inbounds: vec![],
        outbounds: vec![],
        streams: vec![],
        tcp: vec![],
        kcp: vec![],
        http2: vec![],
        quic: vec![],
        grpc: vec![],
        ws: vec![],
        tls: vec![],
        vnext: vec![],
        vmess_users: vec![],
        shadowsocks: vec![],
        trojan: vec![],
        hysteria2: vec![],
        dns: vec![],
    }
}

fn s(text: &str) -> String {
    text.to_string()
}

fn vmess_store() -> SettingsStore {
    let mut store = empty_store();
    store.user_groups.push(UserGroupRow { user_id: s("u1"), group_id: s("g1") });
    store.endpoints.push(EndpointRow {
        endpoint_id: s("e1"),
        group_id: s("g1"),
        remark: s("first"),
        active: true,
    });
    store.endpoints.push(EndpointRow {
        endpoint_id: s("e2"),
        group_id: s("g2"),
        remark: s("foreign"),
        active: false,
    });
    store.logs.push(LogRow {
        user_id: s("u1"),
        error_path: s("/tmp/error.log"),
        log_level: s("info"),
        access_path: s("/tmp/access.log"),
    });
    store.inbounds.push(InboundRow {
        user_id: s("u1"),
        listen: s("127.0.0.1"),
        port: 10871,
        protocol: s("http"),
        tag: s("http-inbound"),
        strategy: None,
        refresh: None,
        concurrency: None,
    });
    store.inbounds.push(InboundRow {
        user_id: s("other"),
        listen: s("0.0.0.0"),
        port: 1,
        protocol: s("socks"),
        tag: s("not-mine"),
        strategy: None,
        refresh: None,
        concurrency: None,
    });
    store.inbounds.push(InboundRow {
        user_id: s("u1"),
        listen: s("127.0.0.1"),
        port: 10872,
        protocol: s("dokodemo-door"),
        tag: s("api"),
        strategy: Some(s("always")),
        refresh: Some(5),
        concurrency: Some(3),
    });
    store.outbounds.push(OutboundRow {
        endpoint_id: s("e1"),
        mux_enabled: 1,
        mux_concurrency: 8,
        protocol: s("vmess"),
        tag: s("proxy"),
    });
    store.streams.push(StreamRow { endpoint_id: s("e1"), security: s("tls"), network: s("ws") });
    store.ws.push(WsRow { endpoint_id: s("e1"), host: s("cdn.example"), path: s("/ray") });
    store.tls.push(TlsRow {
        endpoint_id: s("e1"),
        allow_insecure: 0,
        server_name: s("cdn.example"),
        fingerprint: s("chrome"),
    });
    store.vnext.push(VnextRow {
        vnext_id: s("v1"),
        endpoint_id: s("e1"),
        address: s("1.2.3.4"),
        port: 443,
    });
    store.vmess_users.push(VmessUserRow {
        vnext_id: s("v1"),
        uuid: s("b831381d-6324-4d53-ad4f-8cda48b30811"),
        alter_id: 0,
        level: None,
        security: s("auto"),
    });
    store.vmess_users.push(VmessUserRow {
        vnext_id: s("v2"),
        uuid: s("someone-else"),
        alter_id: 1,
        level: Some(1),
        security: s("none"),
    });
    store.dns.push(DnsRow {
        user_id: s("u1"),
        value: s("{\"hosts\": {\"dns.google\": \"8.8.8.8\", \"a.b\": \"1.1.1.1\"}, \"servers\": [1, 2.5]}"),
    });
    store
}

const VMESS_EXPECTED: &str = r#"{
  "log": {
    "error": "/tmp/error.log",
    "loglevel": "info",
    "access": "/tmp/access.log"
  },
  "inbounds": [
    {
      "listen": "127.0.0.1",
      "port": 10871,
      "protocol": "http",
      "tag": "http-inbound"
    },
    {
      "listen": "127.0.0.1",
      "port": 10872,
      "protocol": "dokodemo-door",
      "tag": "api",
      "allocate": {
        "strategy": "always",
        "refresh": 5,
        "concurrency": 3
      },
      "settings": {
        "address": "127.0.0.1"
      }
    }
  ],
  "stats": {},
  "api": {
    "services": [
      "HandlerService",
      "LoggerService",
      "StatsService"
    ],
    "tag": "api"
  },
  "policy": {
    "levels": {
      "0": {
        "statsUserUplink": true,
        "statsUserDownlink": true
      }
    },
    "system": {
      "statsInboundUplink": true,
      "statsInboundDownlink": true,
      "statsOutboundUplink": true,
      "statsOutboundDownlink": true
    }
  },
  "outbounds": [
    {
      "mux": {
        "enabled": true,
        "concurrency": 8
      },
      "protocol": "vmess",
      "streamSettings": {
        "tcpSettings": null,
        "kcpSettings": null,
        "httpSettings": null,
        "quicSettings": null,
        "dsSettings": null,
        "grpcSettings": null,
        "wsSettings": {
          "path": "/ray",
          "headers": {
            "host": "cdn.example"
          }
        },
        "realitySettings": null,
        "xtlsSettings": null,
        "tlsSettings": {
          "allowInsecure": false,
          "serverName": "cdn.example",
          "fingerprint": "chrome"
        },
        "security": "tls",
        "network": "ws"
      },
      "tag": "proxy",
      "settings": {
        "vnext": [
          {
            "address": "1.2.3.4",
            "port": 443,
            "users": [
              {
                "id": "b831381d-6324-4d53-ad4f-8cda48b30811",
                "alterId": 0,
                "level": 0,
                "security": "auto"
              }
            ]
          }
        ],
        "servers": null,
        "freedom": null,
        "blackhole": null
      }
    },
    {
      "mux": {
        "enabled": false,
        "concurrency": 1
      },
      "protocol": "freedom",
      "streamSettings": {
        "tcpSettings": null,
        "kcpSettings": null,
        "httpSettings": null,
        "quicSettings": null,
        "dsSettings": null,
        "grpcSettings": null,
        "wsSettings": null,
        "realitySettings": null,
        "xtlsSettings": null,
        "security": "none",
        "network": "tcp"
      },
      "tag": "direct",
      "settings": {
        "vnext": null,
        "servers": null,
        "freedom": {
          "domainStrategy": "UseIP",
          "userLevel": 0
        },
        "blackhole": null
      }
    },
    {
      "mux": {
        "enabled": false,
        "concurrency": 1
      },
      "protocol": "blackhole",
      "streamSettings": {
        "tcpSettings": null,
        "kcpSettings": null,
        "httpSettings": null,
        "quicSettings": null,
        "dsSettings": null,
        "grpcSettings": null,
        "wsSettings": null,
        "realitySettings": null,
        "xtlsSettings": null,
        "security": "none",
        "network": "tcp"
      },
      "tag": "block",
      "settings": {
        "vnext": null,
        "servers": null,
        "freedom": null,
        "blackhole": {
          "response": {
            "type": "none"
          }
        }
      }
    }
  ],
  "dns": {
    "hosts": {
      "dns.google": "8.8.8.8",
      "a.b": "1.1.1.1"
    }
  },
  "routing": {
    "settings": {
      "domainStrategy": "AsIs",
      "rules": [
        {
          "inboundTag": [
            "api"
          ],
          "outboundTag": "api",
          "type": "field"
        }
      ]
    }
  },
  "transport": {}
}"#;

#[test]
fn vmess_configuration_text() {
    let text = generate_config(&vmess_store(), "u1", "e1").unwrap();
    assert_eq!(text, VMESS_EXPECTED);
}

#[test]
fn synthesis_is_deterministic() {
    let first = generate_config(&vmess_store(), "u1", "e1").unwrap();
    let second = generate_config(&vmess_store(), "u1", "e1").unwrap();
    assert_eq!(first.as_bytes(), second.as_bytes());
}

#[test]
fn foreign_endpoint_is_rejected() {
    let result = generate_config(&vmess_store(), "u1", "e2");
    assert_eq!(result, Err(SynthesisError::Association));
    assert!(synthesize(&vmess_store(), "u1", "e2").is_err());
}

#[test]
fn unknown_user_or_endpoint_is_rejected() {
    assert_eq!(generate_config(&vmess_store(), "nobody", "e1"), Err(SynthesisError::Association));
    assert_eq!(generate_config(&vmess_store(), "u1", "e9"), Err(SynthesisError::Association));
    assert_eq!(generate_config(&empty_store(), "u1", "e1"), Err(SynthesisError::Association));
}

#[test]
fn missing_rows_are_config_errors() {
    let mut store = vmess_store();
    store.logs.clear();
    assert_eq!(
        generate_config(&store, "u1", "e1"),
        Err(SynthesisError::Config(ConfigError::MissingRow(Section::Log)))
    );
    let mut store = vmess_store();
    store.outbounds.clear();
    assert_eq!(
        generate_config(&store, "u1", "e1"),
        Err(SynthesisError::Config(ConfigError::MissingRow(Section::Outbounds)))
    );
    let mut store = vmess_store();
    store.streams.clear();
    assert_eq!(
        generate_config(&store, "u1", "e1"),
        Err(SynthesisError::Config(ConfigError::MissingRow(Section::StreamSettings)))
    );
    let mut store = vmess_store();
    store.ws.clear();
    assert_eq!(
        generate_config(&store, "u1", "e1"),
        Err(SynthesisError::Config(ConfigError::MissingRow(Section::WsSettings)))
    );
    let mut store = vmess_store();
    store.dns.clear();
    assert_eq!(
        generate_config(&store, "u1", "e1"),
        Err(SynthesisError::Config(ConfigError::MissingRow(Section::Dns)))
    );
}

#[test]
fn numbers_out_of_range_are_config_errors() {
    let mut store = vmess_store();
    store.inbounds[0].port = 65536;
    assert_eq!(
        generate_config(&store, "u1", "e1"),
        Err(SynthesisError::Config(ConfigError::InvalidNumber(Section::Inbounds)))
    );
    let mut store = vmess_store();
    store.inbounds[1].port = 70000;
    assert!(generate_config(&store, "u1", "e1").is_ok());
    let mut store = vmess_store();
    store.inbounds[2].refresh = Some(-1);
    assert_eq!(
        generate_config(&store, "u1", "e1"),
        Err(SynthesisError::Config(ConfigError::InvalidNumber(Section::Inbounds)))
    );
    let mut store = vmess_store();
    store.outbounds[0].mux_enabled = 2;
    assert_eq!(
        generate_config(&store, "u1", "e1"),
        Err(SynthesisError::Config(ConfigError::InvalidNumber(Section::Outbounds)))
    );
    let mut store = vmess_store();
    store.tls[0].allow_insecure = -1;
    assert_eq!(
        generate_config(&store, "u1", "e1"),
        Err(SynthesisError::Config(ConfigError::InvalidNumber(Section::TlsSettings)))
    );
    let mut store = vmess_store();
    store.vnext[0].port = -443;
    assert_eq!(
        generate_config(&store, "u1", "e1"),
        Err(SynthesisError::Config(ConfigError::InvalidNumber(Section::VmessVnext)))
    );
    let mut store = vmess_store();
    store.vmess_users[0].alter_id = 4294967296;
    assert_eq!(
        generate_config(&store, "u1", "e1"),
        Err(SynthesisError::Config(ConfigError::InvalidNumber(Section::VmessUsers)))
    );
    let mut store = vmess_store();
    store.vmess_users[1].alter_id = -1;
    assert!(generate_config(&store, "u1", "e1").is_ok());
}

#[test]
fn malformed_dns_is_a_config_error() {
    for bad in ["", "not json", "[]", "{}", "{\"hosts\": []}", "{\"hosts\": {\"a\": 1}}", "{\"hosts\": \"x\"}"] {
        let mut store = vmess_store();
        store.dns[0].value = s(bad);
        assert_eq!(
            generate_config(&store, "u1", "e1"),
            Err(SynthesisError::Config(ConfigError::MalformedDocument(Section::Dns))),
            "stored dns {:?}",
            bad
        );
    }
    let mut store = vmess_store();
    store.dns[0].value = s("{\"hosts\": {}}");
    let text = generate_config(&store, "u1", "e1").unwrap();
    assert!(text.contains("\"dns\": {\n    \"hosts\": {}\n  }"));
}

#[test]
fn shadowsocks_over_tcp_without_tls() {
    let mut store = vmess_store();
    store.endpoints.push(EndpointRow {
        endpoint_id: s("e3"),
        group_id: s("g1"),
        remark: s("ss"),
        active: false,
    });
    store.outbounds.push(OutboundRow {
        endpoint_id: s("e3"),
        mux_enabled: 0,
        mux_concurrency: 1,
        protocol: s("shadowsocks"),
        tag: s("proxy"),
    });
    store.streams.push(StreamRow { endpoint_id: s("e3"), security: s("none"), network: s("tcp") });
    store.tcp.push(TcpRow {
        endpoint_id: s("e3"),
        header_type: s("http"),
        request_path: Some(s("/")),
        request_host: None,
    });
    store.shadowsocks.push(ShadowsocksRow {
        endpoint_id: s("e3"),
        method: s("aes-256-gcm"),
        password: s("secret \"quoted\""),
        level: 0,
        email: None,
        address: s("ss.example"),
        port: 8388,
    });
    let text = generate_config(&store, "u1", "e3").unwrap();
    let doc: serde_json::Value = serde_json::from_str(&text).unwrap();
    let primary = &doc["outbounds"][0];
    assert_eq!(primary["protocol"], "shadowsocks");
    assert_eq!(primary["mux"]["enabled"], false);
    assert!(primary["streamSettings"].get("tlsSettings").is_none());
    assert_eq!(primary["streamSettings"]["tcpSettings"]["header"]["type"], "http");
    assert_eq!(primary["streamSettings"]["tcpSettings"]["header"]["request"]["path"][0], "/");
    assert!(primary["streamSettings"]["tcpSettings"]["header"]["request"]["headers"].is_null());
    assert!(primary["settings"]["vnext"].is_null());
    assert_eq!(primary["settings"]["servers"][0]["password"], "secret \"quoted\"");
    assert!(primary["settings"]["servers"][0]["email"].is_null());
    assert_eq!(primary["settings"]["servers"][0]["port"], 8388);
    assert_eq!(doc["outbounds"].as_array().unwrap().len(), 3);
    assert_eq!(doc["outbounds"][1]["tag"], "direct");
    assert_eq!(doc["outbounds"][2]["tag"], "block");
}

#[test]
fn trojan_and_hysteria2_list_their_servers() {
    for (protocol, section) in [("trojan", Section::TrojanServers), ("hysteria2", Section::Hysteria2)] {
        let mut store = vmess_store();
        store.outbounds[0].protocol = s(protocol);
        let rows = vec![
            ServerRow { endpoint_id: s("e1"), address: s("t1.example"), port: 443 },
            ServerRow { endpoint_id: s("e2"), address: s("foreign.example"), port: 1 },
            ServerRow { endpoint_id: s("e1"), address: s("t2.example"), port: 8443 },
        ];
        if protocol == "trojan" {
            store.trojan = rows;
        } else {
            store.hysteria2 = rows;
        }
        let text = generate_config(&store, "u1", "e1").unwrap();
        let doc: serde_json::Value = serde_json::from_str(&text).unwrap();
        let settings = &doc["outbounds"][0]["settings"];
        assert!(settings["vnext"].is_null());
        assert_eq!(settings["servers"].as_array().unwrap().len(), 2);
        assert_eq!(settings["servers"][0]["address"], "t1.example");
        assert_eq!(settings["servers"][0]["port"], 443);
        assert_eq!(settings["servers"][1]["address"], "t2.example");
        if protocol == "trojan" {
            store.trojan[2].port = 65536;
        } else {
            store.hysteria2[2].port = -1;
        }
        assert_eq!(
            generate_config(&store, "u1", "e1"),
            Err(SynthesisError::Config(ConfigError::InvalidNumber(section)))
        );
    }
}

#[test]
fn other_protocols_have_no_settings() {
    let mut store = vmess_store();
    store.outbounds[0].protocol = s("socks");
    store.streams[0].network = s("domainsocket");
    let text = generate_config(&store, "u1", "e1").unwrap();
    let doc: serde_json::Value = serde_json::from_str(&text).unwrap();
    let primary = &doc["outbounds"][0];
    assert_eq!(primary["protocol"], "socks");
    assert!(primary["settings"]["vnext"].is_null());
    assert!(primary["settings"]["servers"].is_null());
    assert!(primary["streamSettings"]["wsSettings"].is_null());
    assert_eq!(primary["streamSettings"]["network"], "domainsocket");
}

fn with_network(network: &str) -> SettingsStore {
    let mut store = vmess_store();
    store.streams[0].network = s(network);
    store.tls.clear();
    store
}

fn stream_of(store: &SettingsStore) -> serde_json::Value {
    let text = generate_config(store, "u1", "e1").unwrap();
    let doc: serde_json::Value = serde_json::from_str(&text).unwrap();
    doc["outbounds"][0]["streamSettings"].clone()
}

#[test]
fn tcp_transport() {
    let mut store = with_network("tcp");
    assert_eq!(
        generate_config(&store, "u1", "e1"),
        Err(SynthesisError::Config(ConfigError::MissingRow(Section::TcpSettings)))
    );
    store.tcp.push(TcpRow {
        endpoint_id: s("e1"),
        header_type: s("none"),
        request_path: None,
        request_host: None,
    });
    let stream = stream_of(&store);
    assert_eq!(
        serde_json::to_string(&stream["tcpSettings"]).unwrap(),
        "{\"header\":{\"type\":\"none\",\"request\":null}}"
    );
    assert!(stream["wsSettings"].is_null());
    assert!(stream.get("tlsSettings").is_none());
    store.tcp[0].request_host = Some(s("h.example"));
    assert_eq!(
        serde_json::to_string(&stream_of(&store)["tcpSettings"]).unwrap(),
        "{\"header\":{\"type\":\"none\",\"request\":{\"path\":null,\"headers\":{\"Host\":[\"h.example\"]}}}}"
    );
}

#[test]
fn kcp_transport() {
    let mut store = with_network("kcp");
    assert_eq!(
        generate_config(&store, "u1", "e1"),
        Err(SynthesisError::Config(ConfigError::MissingRow(Section::KcpSettings)))
    );
    store.kcp.push(KcpRow {
        endpoint_id: s("e1"),
        mtu: 1350,
        tti: 50,
        uplink_capacity: 5,
        downlink_capacity: 20,
        congestion: 1,
        read_buffer_size: 2,
        write_buffer_size: 2,
        header_type: s("wechat-video"),
    });
    assert_eq!(
        serde_json::to_string(&stream_of(&store)["kcpSettings"]).unwrap(),
        "{\"mtu\":1350,\"tti\":50,\"uplinkCapacity\":5,\"downlinkCapacity\":20,\"congestion\":true,\"readBufferSize\":2,\"writeBufferSize\":2,\"headerType\":\"wechat-video\"}"
    );
    store.kcp[0].congestion = 3;
    assert_eq!(
        generate_config(&store, "u1", "e1"),
        Err(SynthesisError::Config(ConfigError::InvalidNumber(Section::KcpSettings)))
    );
    store.kcp[0].congestion = 0;
    store.kcp[0].mtu = -1;
    assert_eq!(
        generate_config(&store, "u1", "e1"),
        Err(SynthesisError::Config(ConfigError::InvalidNumber(Section::KcpSettings)))
    );
}

#[test]
fn http2_quic_and_grpc_transports() {
    let mut store = with_network("http");
    assert_eq!(
        generate_config(&store, "u1", "e1"),
        Err(SynthesisError::Config(ConfigError::MissingRow(Section::Http2Settings)))
    );
    store.http2.push(Http2Row { endpoint_id: s("e1"), host: s("h2.example"), path: None, method: None });
    assert_eq!(
        serde_json::to_string(&stream_of(&store)["httpSettings"]).unwrap(),
        "{\"host\":[\"h2.example\"],\"path\":\"/\",\"method\":\"PUT\"}"
    );
    store.http2[0].path = Some(s("/p"));
    store.http2[0].method = Some(s("GET"));
    assert_eq!(
        serde_json::to_string(&stream_of(&store)["httpSettings"]).unwrap(),
        "{\"host\":[\"h2.example\"],\"path\":\"/p\",\"method\":\"GET\"}"
    );

    let mut store = with_network("quic");
    assert_eq!(
        generate_config(&store, "u1", "e1"),
        Err(SynthesisError::Config(ConfigError::MissingRow(Section::QuicSettings)))
    );
    store.quic.push(QuicRow {
        endpoint_id: s("e1"),
        security: s("none"),
        key: s("k"),
        header_type: s("none"),
    });
    assert_eq!(
        serde_json::to_string(&stream_of(&store)["quicSettings"]).unwrap(),
        "{\"security\":\"none\",\"key\":\"k\",\"headerType\":\"none\"}"
    );

    let mut store = with_network("grpc");
    assert_eq!(
        generate_config(&store, "u1", "e1"),
        Err(SynthesisError::Config(ConfigError::MissingRow(Section::GrpcSettings)))
    );
    store.grpc.push(GrpcRow { endpoint_id: s("e1"), service_name: s("svc") });
    assert_eq!(
        serde_json::to_string(&stream_of(&store)["grpcSettings"]).unwrap(),
        "{\"serviceName\":\"svc\"}"
    );
}

#[test]
fn shadowsocks_numbers_out_of_range() {
    let mut store = vmess_store();
    store.outbounds[0].protocol = s("shadowsocks");
    store.shadowsocks.push(ShadowsocksRow {
        endpoint_id: s("e1"),
        method: s("m"),
        password: s("p"),
        level: 4294967296,
        email: None,
        address: s("a"),
        port: 1,
    });
    assert_eq!(
        generate_config(&store, "u1", "e1"),
        Err(SynthesisError::Config(ConfigError::InvalidNumber(Section::Shadowsocks)))
    );
}

#[test]
fn first_fault_in_reading_order_is_reported() {
    let mut store = vmess_store();
    store.inbounds[0].port = -1;
    store.outbounds.clear();
    store.dns.clear();
    assert_eq!(
        generate_config(&store, "u1", "e1"),
        Err(SynthesisError::Config(ConfigError::InvalidNumber(Section::Inbounds)))
    );
    store.logs.clear();
    assert_eq!(
        generate_config(&store, "u1", "e1"),
        Err(SynthesisError::Config(ConfigError::MissingRow(Section::Log)))
    );
}

#[test]
fn printer_failure_is_a_serialization_error() {
    assert_eq!(
        finish_config(None),
        Err(SynthesisError::Config(ConfigError::Serialization))
    );
    assert_eq!(finish_config(Some(s("{}"))), Ok(s("{}")));
}

#[test]
fn synthesized_configuration_can_be_inspected() {
    let config = synthesize(&vmess_store(), "u1", "e1").ok().unwrap();
    assert!(proxy_core::json::is_well_formed(config.document()));
    assert_eq!(config.render().unwrap(), VMESS_EXPECTED);
}
