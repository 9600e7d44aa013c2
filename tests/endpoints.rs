use vswim::endpoints::{VatsimApiUrls, VatsimDataApiUrls};
use vswim::errors::{EndpointCategory, VatsimDataAPIError};
use vswim::model::{VatsimStatusData, VatsimStatusDataData};

fn urls(prefix: &str, n: usize) -> Vec<String> {
    (0..n).map(|i| format!("https://{}{}.example/", prefix, i)).collect()
}

fn status(v3: usize, transceivers: usize, servers: usize, user: usize, metar: usize) -> VatsimStatusData {
    VatsimStatusData {
        data: VatsimStatusDataData {
            v3: urls("v3-", v3),
            transceivers: urls("tx-", transceivers),
            servers: urls("srv-", servers),
        },
        user: urls("user-", user),
        metar: urls("metar-", metar),
    }
}

fn some(s: &str) -> Option<String> {
    Some(s.to_string())
}

#[test]
fn choices_assemble_the_endpoints() {
    let r = VatsimApiUrls::from_choices(some("a"), some("b"), None, some("d"), some("e"));
    assert_eq!(
        r,
        Ok(VatsimApiUrls {
            data_urls: VatsimDataApiUrls {
                v3_url: "a".to_string(),
                transceivers_url: some("b"),
                servers_url: None,
            },
            user_url: some("d"),
            metar_url: some("e"),
        })
    );
}

#[test]
fn missing_v3_choice_is_reported() {
    let r = VatsimApiUrls::from_choices(None, some("b"), some("c"), some("d"), some("e"));
    assert_eq!(r, Err(VatsimDataAPIError::MissingEndpoint(EndpointCategory::V3)));
    let r = VatsimApiUrls::from_choices(None, None, None, None, None);
    assert_eq!(r, Err(VatsimDataAPIError::MissingEndpoint(EndpointCategory::V3)));
}

#[test]
fn single_candidates_are_chosen() {
    let s = status(1, 1, 1, 1, 1);
    let r = VatsimApiUrls::new(&s).unwrap();
    assert_eq!(r.data_urls.v3_url, "https://v3-0.example/");
    assert_eq!(r.data_urls.transceivers_url, some("https://tx-0.example/"));
    assert_eq!(r.data_urls.servers_url, some("https://srv-0.example/"));
    assert_eq!(r.user_url, some("https://user-0.example/"));
    assert_eq!(r.metar_url, some("https://metar-0.example/"));
}

#[test]
fn chosen_urls_come_from_their_lists() {
    let s = status(3, 2, 4, 5, 2);
    for _ in 0..200 {
        let r = VatsimApiUrls::new(&s).unwrap();
        assert!(s.data.v3.contains(&r.data_urls.v3_url));
        assert!(s.data.transceivers.contains(&r.data_urls.transceivers_url.unwrap()));
        assert!(s.data.servers.contains(&r.data_urls.servers_url.unwrap()));
        assert!(s.user.contains(&r.user_url.unwrap()));
        assert!(s.metar.contains(&r.metar_url.unwrap()));
    }
}

#[test]
fn empty_v3_list_is_an_error() {
    assert_eq!(
        VatsimApiUrls::new(&status(0, 1, 1, 1, 1)),
        Err(VatsimDataAPIError::MissingEndpoint(EndpointCategory::V3))
    );
}

#[test]
fn empty_optional_lists_leave_no_url() {
    let r = VatsimApiUrls::new(&status(2, 0, 1, 0, 0)).unwrap();
    assert!(r.data_urls.v3_url.starts_with("https://v3-"));
    assert_eq!(r.data_urls.transceivers_url, None);
    assert_eq!(r.data_urls.servers_url, some("https://srv-0.example/"));
    assert_eq!(r.user_url, None);
    assert_eq!(r.metar_url, None);
}

#[test]
fn selection_is_close_to_uniform() {
    let k = 4;
    let runs = 8000;
    let s = status(k, 1, 1, 1, 1);
    let mut counts = vec![0usize; k];
    for _ in 0..runs {
        let r = VatsimApiUrls::new(&s).unwrap();
        let i = s.data.v3.iter().position(|u| *u == r.data_urls.v3_url).unwrap();
        counts[i] += 1;
    }
    for c in counts {
        let share = c as f64 / runs as f64;
        assert!((share - 0.25).abs() < 0.04, "share {}", share);
    }
}
