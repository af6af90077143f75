use cnix::caches::{Cachix, CachixCaches};
use cnix::cachix::{is_refusal, write_advice, SearchAction, SearchEvent, SearchStage};
use cnix::error::NixError;
use cnix::keys::KnownKeys;
use cnix::nix::Nix;
use cnix::notice::{Level, Notice};
use cnix::options::{Config, Environment, GlobalOptions, Options};
use cnix::requests::Request;

fn nix() -> Nix<'static> {
    Nix::new(
        Config { impure: false },
        GlobalOptions {
            verbose: false,
            quiet: false,
            max_jobs: 1,
            offline: false,
            impure: false,
            eval_cache: true,
            refresh_eval_cache: false,
            nix_debugger: false,
            nix_option: vec![],
        },
        "/home/keys.json".to_string(),
        "home".to_string(),
        "dotfile".to_string(),
        "dot".to_string(),
        "root".to_string(),
    )
}

fn env(token: Option<&str>) -> Environment {
    Environment { devenv_nix: None, cachix_auth_token: token.map(|s| s.to_string()) }
}

fn notice(level: Level, text: &str) -> Notice {
    Notice { level, text: text.to_string() }
}

fn cachix(pull: &[&str], push: Option<&str>) -> Cachix {
    Cachix {
        pull: pull.iter().map(|s| s.to_string()).collect(),
        push: push.map(|s| s.to_string()),
    }
}

fn keys(pairs: &[(&str, &str)]) -> KnownKeys {
    let mut keys = KnownKeys::new();
    for (name, key) in pairs {
        keys.insert(name, key);
    }
    keys
}

fn entries(keys: &KnownKeys) -> Vec<(String, String)> {
    let mut v: Vec<(String, String)> = (0..keys.len())
        .map(|i| keys.entry(i))
        .map(|(name, key)| (name.to_string(), key.to_string()))
        .collect();
    v.sort();
    v
}

fn pairs(parts: &[(&str, &str)]) -> Vec<(String, String)> {
    parts.iter().map(|(a, b)| (a.to_string(), b.to_string())).collect()
}

fn answer(keys: &[&str]) -> SearchEvent {
    SearchEvent::Answered { public_signing_keys: keys.iter().map(|s| s.to_string()).collect() }
}

fn fetch(name: &str, bearer: Option<&str>) -> SearchAction<'static> {
    SearchAction::Fetch {
        url: format!("https://cachix.org/api/v1/cache/{}", name),
        bearer: bearer.map(|s| s.to_string()),
    }
}

fn ping() -> SearchAction<'static> {
    SearchAction::Ping(Request {
        substituters: false,
        command: "nix".to_string(),
        args: vec!["store".to_string(), "ping".to_string(), "--json".to_string()],
        options: Options { logging: false, ..Options::initial() },
    })
}

/// Leads a search to the point where the key file has been read.
fn read_keys(
    nix: &mut Nix<'static>,
    wanted: Cachix,
    known: KnownKeys,
    env: &Environment,
    log: &mut Vec<Notice>,
) -> (SearchStage, SearchAction<'static>) {
    let (stage, _) = nix.get_cachix_caches();
    let (stage, _) = nix.continue_search(stage, SearchEvent::Evaluated(wanted), env, log);
    nix.continue_search(stage, SearchEvent::KeysRead(known), env, log)
}

#[test]
fn a_search_from_beginning_to_end() {
    let mut nix = nix();
    let mut log = vec![];
    let env = env(Some("secret"));
    let (stage, action) = nix.get_cachix_caches();
    assert!(matches!(stage, SearchStage::Evaluating));
    assert_eq!(action, SearchAction::Evaluate(nix.eval(&["devenv.cachix"])));

    let wanted = cachix(&["devenv", "old", "mine"], Some("mine"));
    let (stage, action) =
        nix.continue_search(stage, SearchEvent::Evaluated(wanted), &env, &mut log);
    assert_eq!(action, SearchAction::ReadKeys { path: "/home/keys.json".to_string() });

    let known = keys(&[("old", "k-old"), ("other", "k-other")]);
    let (stage, action) =
        nix.continue_search(stage, SearchEvent::KeysRead(known), &env, &mut log);
    assert_eq!(action, fetch("devenv", Some("secret")));

    let (stage, action) =
        nix.continue_search(stage, answer(&["k-devenv", "spare"]), &env, &mut log);
    assert_eq!(action, fetch("mine", Some("secret")));

    let (stage, action) = nix.continue_search(stage, answer(&["k-mine"]), &env, &mut log);
    assert_eq!(action, ping());
    assert_eq!(log, []);

    let pinged = SearchEvent::Pinged { trusted: Some(1) };
    let (stage, action) = nix.continue_search(stage, pinged, &env, &mut log);
    assert_eq!(
        log,
        [
            notice(Level::Info, "Using Cachix: devenv, old, mine"),
            notice(
                Level::Info,
                "Trusting devenv.cachix.org on first use with the public key k-devenv"
            ),
            notice(
                Level::Info,
                "Trusting mine.cachix.org on first use with the public key k-mine"
            ),
        ]
    );
    let all = pairs(&[
        ("devenv", "k-devenv"),
        ("mine", "k-mine"),
        ("old", "k-old"),
        ("other", "k-other"),
    ]);
    match action {
        SearchAction::WriteKeys { path, contents } => {
            assert_eq!(path, "/home/keys.json");
            assert_eq!(entries(&KnownKeys::load(Some(&contents)).unwrap()), all);
        }
        _ => unreachable!(),
    }
    assert!(nix.cachix_caches.is_none());

    let (stage, action) = nix.continue_search(stage, SearchEvent::Written, &env, &mut log);
    assert_eq!(action, SearchAction::Ready);
    assert!(matches!(stage, SearchStage::Finished));
    let kept = nix.cachix_caches.as_ref().unwrap();
    assert_eq!(kept.caches, cachix(&["devenv", "old", "mine"], Some("mine")));
    assert_eq!(entries(&kept.known_keys), all);
    assert_eq!(log.len(), 3);

    let (_, again) = nix.get_cachix_caches();
    assert_eq!(again, SearchAction::Ready);
}

#[test]
fn known_keys_are_not_asked_for() {
    let mut nix = nix();
    let mut log = vec![];
    let known = keys(&[("a", "1"), ("b", "2")]);
    let (_, action) =
        read_keys(&mut nix, cachix(&["b", "a"], None), known, &env(None), &mut log);
    assert_eq!(action, ping());
}

#[test]
fn without_a_secret_none_is_sent() {
    let mut nix = nix();
    let known = keys(&[("a", "1")]);
    let wanted = cachix(&["a", "b"], None);
    let (_, action) = read_keys(&mut nix, wanted, known, &env(None), &mut vec![]);
    assert_eq!(action, fetch("b", None));
}

#[test]
fn a_cache_that_is_named_twice_is_asked_twice() {
    let mut nix = nix();
    let env = env(None);
    let mut log = vec![];
    let wanted = cachix(&["a", "a"], None);
    let (stage, action) = read_keys(&mut nix, wanted, keys(&[]), &env, &mut log);
    assert_eq!(action, fetch("a", None));
    let (stage, action) = nix.continue_search(stage, answer(&["1"]), &env, &mut log);
    assert_eq!(action, fetch("a", None));
    let (stage, _) = nix.continue_search(stage, answer(&["2"]), &env, &mut log);
    let (stage, _) =
        nix.continue_search(stage, SearchEvent::Pinged { trusted: Some(1) }, &env, &mut log);
    nix.continue_search(stage, SearchEvent::Written, &env, &mut log);
    let kept = nix.cachix_caches.as_ref().unwrap();
    assert_eq!(entries(&kept.known_keys), pairs(&[("a", "2")]));
}

#[test]
fn no_caches_need_no_store() {
    let mut nix = nix();
    let mut log = vec![];
    let wanted = cachix(&[], Some("mine"));
    let known = keys(&[("x", "1")]);
    let (stage, action) = read_keys(&mut nix, wanted, known, &env(None), &mut log);
    assert_eq!(action, SearchAction::Ready);
    assert!(matches!(stage, SearchStage::Finished));
    assert_eq!(log, []);
    let kept = nix.cachix_caches.as_ref().unwrap();
    assert_eq!(kept.caches, cachix(&[], Some("mine")));
    assert_eq!(entries(&kept.known_keys), pairs(&[("x", "1")]));
}

#[test]
fn a_cache_that_is_refused() {
    let mut nix = nix();
    let env = env(None);
    let mut log = vec![];
    let wanted = cachix(&["a", "b"], None);
    let (stage, _) = read_keys(&mut nix, wanted, keys(&[("a", "1")]), &env, &mut log);
    let (stage, action) = nix.continue_search(stage, SearchEvent::Refused, &env, &mut log);
    assert_eq!(action, SearchAction::Fail(NixError::CacheRefused));
    assert!(matches!(stage, SearchStage::Finished));
    assert_eq!(
        NixError::CacheRefused.message(),
        "Cache does not exist or you don't have a CACHIX_AUTH_TOKEN configured."
    );
    assert_eq!(
        log,
        [
            notice(
                Level::Error,
                "Cache b does not exist or you don't have a CACHIX_AUTH_TOKEN configured."
            ),
            notice(Level::Error, "To create a cache, go to https://app.cachix.org/."),
        ]
    );
    assert!(nix.cachix_caches.is_none());
}

#[test]
fn refusals_are_the_askers_fault() {
    for status in 100..=599 {
        assert_eq!(is_refusal(status), status / 100 == 4);
    }
    assert!(!is_refusal(0));
    assert!(!is_refusal(u16::MAX));
}

#[test]
fn an_evaluation_that_fails() {
    let mut nix = nix();
    let mut log = vec![];
    let (stage, _) = nix.get_cachix_caches();
    let event = SearchEvent::EvaluationFailed(NixError::DevenvNixNotSet);
    let (_, action) = nix.continue_search(stage, event, &env(None), &mut log);
    assert_eq!(action, SearchAction::Fail(NixError::DevenvNixNotSet));
    assert_eq!(log, []);
    assert!(nix.cachix_caches.is_none());
}

#[test]
fn a_store_that_does_not_answer() {
    let mut nix = nix();
    let env = env(None);
    let mut log = vec![];
    let wanted = cachix(&["a"], None);
    let (stage, _) = read_keys(&mut nix, wanted, keys(&[("a", "1")]), &env, &mut log);
    let e = NixError::CommandFailed { command: "nix".to_string(), code: None };
    let (_, action) = nix.continue_search(stage, SearchEvent::PingFailed(e), &env, &mut log);
    let e = NixError::CommandFailed { command: "nix".to_string(), code: None };
    assert_eq!(action, SearchAction::Fail(e));
    assert_eq!(log, []);
    assert!(nix.cachix_caches.is_none());
}

#[test]
fn an_old_store_does_not_say() {
    let mut nix = nix();
    let env = env(None);
    let mut log = vec![];
    let wanted = cachix(&["a"], None);
    let (stage, _) = read_keys(&mut nix, wanted, keys(&[("a", "1")]), &env, &mut log);
    let event = SearchEvent::Pinged { trusted: None };
    let (stage, _) = nix.continue_search(stage, event, &env, &mut log);
    assert_eq!(
        log,
        [
            notice(
                Level::Warn,
                "You're using very old version of Nix, please upgrade and restart nix-daemon."
            ),
            notice(Level::Info, "Using Cachix: a"),
        ]
    );
    let (_, action) = nix.continue_search(stage, SearchEvent::Written, &env, &mut log);
    assert_eq!(action, SearchAction::Ready);
    assert!(nix.cachix_caches.is_some());
}

const NIXOS: &str = "You're not a trusted user of the Nix store. You have the following options:

a) Add yourself to the trusted-users list in /etc/nix/nix.conf by editing configuration.nix for devenv to manage caches for you.

{
    nix.extraOptions = ''
        trusted-users = root alice
    '';
}

b) Add binary caches to /etc/nix/nix.conf yourself by editing configuration.nix:
{
    nix.extraOptions = ''
        extra-substituters = https://a.cachix.org https://b.cachix.org;
        extra-trusted-public-keys = 1 2;
    '';
}

Lastly rebuild your system

$ sudo nixos-rebuild switch
";

const LINUX: &str = "You're not a trusted user of the Nix store. You have the following options:

a) Add yourself to the trusted-users list in /etc/nix/nix.conf for devenv to manage caches for you.

trusted-users = root alice

Restart nix-daemon with:

  $ sudo systemctl restart nix-daemon

b) Add binary caches to /etc/nix/nix.conf yourself:

extra-substituters = https://a.cachix.org https://b.cachix.org
extra-trusted-public-keys = 1 2

And disable automatic cache configuration in `devenv.nix`:

{
    cachix.enable = false;
}
";

#[test]
fn a_user_who_is_not_trusted() {
    for (nixos, linux) in [(true, true), (false, true), (false, false)] {
        let mut nix = nix();
        let env = env(None);
        let mut log = vec![];
        let wanted = cachix(&["a", "b"], None);
        let known = keys(&[("a", "1"), ("b", "2")]);
        let (stage, _) = read_keys(&mut nix, wanted, known, &env, &mut log);
        let event = SearchEvent::Pinged { trusted: Some(0) };
        let (stage, action) = nix.continue_search(stage, event, &env, &mut log);
        assert!(matches!(action, SearchAction::WriteKeys { .. }));
        let (stage, action) = nix.continue_search(stage, SearchEvent::Written, &env, &mut log);
        assert_eq!(action, SearchAction::AskHost { nixos_marker: "/etc/NIXOS".to_string() });
        let event = SearchEvent::HostSeen { nixos, linux, username: "alice".to_string() };
        let (_, action) = nix.continue_search(stage, event, &env, &mut log);
        assert_eq!(action, SearchAction::Fail(NixError::NotTrusted));
        assert!(nix.cachix_caches.is_none());
        let restart = "sudo launchctl kickstart -k system/org.nixos.nix-daemon";
        let advice = match (nixos, linux) {
            (true, _) => NIXOS.to_string(),
            (false, true) => LINUX.to_string(),
            (false, false) => LINUX.replace("sudo systemctl restart nix-daemon", restart),
        };
        assert_eq!(
            log,
            [notice(Level::Info, "Using Cachix: a, b"), notice(Level::Error, &advice)]
        );
    }
    assert_eq!(
        NixError::NotTrusted.message(),
        "You're not a trusted user of the Nix store."
    );
}

#[test]
fn advice_without_caches() {
    let caches = CachixCaches { caches: cachix(&[], None), known_keys: keys(&[]) };
    let advice = write_advice(true, false, "", &caches);
    assert!(advice.contains("trusted-users = root \n"));
    assert!(advice.contains("extra-substituters = ;\n"));
    assert!(advice.contains("extra-trusted-public-keys = ;\n"));
}

#[test]
fn keys_that_were_written_are_not_asked_for_again() {
    let env = env(None);
    let mut log = vec![];
    let mut first = nix();
    let (stage, _) =
        read_keys(&mut first, cachix(&["a"], None), keys(&[]), &env, &mut log);
    let (stage, _) = first.continue_search(stage, answer(&["1"]), &env, &mut log);
    let event = SearchEvent::Pinged { trusted: Some(1) };
    let contents = match first.continue_search(stage, event, &env, &mut log).1 {
        SearchAction::WriteKeys { contents, .. } => contents,
        _ => unreachable!(),
    };
    assert_eq!(contents, "{\"a\":\"1\"}");
    let mut second = nix();
    let known = KnownKeys::load(Some(&contents)).unwrap();
    let (_, action) = read_keys(&mut second, cachix(&["a"], None), known, &env, &mut log);
    assert_eq!(action, ping());
}
