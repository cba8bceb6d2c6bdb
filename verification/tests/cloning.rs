use git_service::cloning::Credentials;
use git_service::dialogue::{Dialogue, Interrupt, Reply, Request};
use git_service::errors::{GitError, GitServiceError};
use git_service::raw::RawText;
use git_service::service::GitService;

fn raw(s: &str) -> RawText {
    RawText { bytes: s.as_bytes().to_vec() }
}

fn drive<T, E, Op>(script: Vec<(Request, Reply)>, op: Op) -> Result<T, E>
where
    Op: for<'a> Fn(&mut Dialogue<'a>) -> Result<T, Interrupt<E>>,
{
    let mut replies: Vec<Reply> = Vec::new();
    let mut steps = script.into_iter();
    loop {
        let step = op(&mut Dialogue::new(&replies));
        let ended = match step {
            Ok(value) => Ok(value),
            Err(Interrupt::Failed(e)) => Err(e),
            Err(Interrupt::OutOfStep) => panic!("a reply of the wrong kind"),
            Err(Interrupt::Ask(request)) => {
                let (expected, reply) = steps.next().expect("a request too many");
                assert_eq!(request, expected);
                replies.push(reply);
                continue;
            }
        };
        assert!(steps.next().is_none(), "a request too few");
        return ended;
    }
}

fn git_error(message: &str) -> GitError {
    GitError { code: -3, class: 4, message: message.to_string(), shown: format!("{}; class=x (4)", message) }
}

fn credentials(token: Option<&str>, user: Option<&str>, script: Vec<(Request, Reply)>) -> Result<Credentials, GitError> {
    drive(script, |io| GitService::clone_credentials(token, user, io))
}

fn agent(user: &str, has_key: bool) -> (Request, Reply) {
    (Request::AgentKey(user.to_string()), Reply::Flag(has_key))
}

fn home(path: Option<&str>) -> (Request, Reply) {
    (Request::HomeDir, Reply::Found(path.map(raw)))
}

fn key_file(user: &str) -> Credentials {
    Credentials::KeyFile { username: user.to_string(), home: raw("/home/u"), file: ".ssh/id_rsa".to_string() }
}

#[test]
fn a_token_is_enough() {
    let token = |user: &str| Credentials::Token { username: user.to_string(), token: "t".to_string() };
    assert_eq!(credentials(Some("t"), None, vec![]), Ok(token("git")));
    assert_eq!(credentials(Some("t"), Some("me"), vec![]), Ok(token("me")));
}

#[test]
fn without_a_token_the_agent_and_the_key_file_are_tried() {
    assert_eq!(
        credentials(None, Some("me"), vec![agent("me", true)]),
        Ok(Credentials::Agent { username: "me".to_string() })
    );
    assert_eq!(
        credentials(None, Some("me"), vec![agent("me", false), home(Some("/home/u"))]),
        Ok(key_file("me"))
    );
    assert_eq!(credentials(None, None, vec![home(Some("/home/u"))]), Ok(key_file("git")));
    assert_eq!(
        credentials(None, None, vec![home(None)]),
        Err(GitError::from_str("Could not find home directory"))
    );
}

#[test]
fn a_clone_creates_the_directory_above_it() {
    let parent = raw("/a");
    let clones = |reply| {
        (
            Request::CloneRepo("url".to_string(), raw("/a/b"), Some("t".to_string())),
            Reply::Unit(reply),
        )
    };
    let run = |parent: Option<&RawText>, script| {
        drive(script, |io| GitService::clone_repository("url", &raw("/a/b"), parent, Some("t"), io))
    };
    let creates = |reply| (Request::CreateDirs(raw("/a")), Reply::Io(reply));
    assert_eq!(run(Some(&parent), vec![creates(Ok(())), clones(Ok(()))]), Ok(()));
    assert_eq!(run(None, vec![clones(Ok(()))]), Ok(()));
    assert_eq!(
        run(Some(&parent), vec![creates(Err("denied".to_string()))]),
        Err(GitServiceError::IoError("denied".to_string()))
    );
    assert_eq!(
        run(None, vec![clones(Err(git_error("unreachable")))]),
        Err(GitServiceError::Git(git_error("unreachable")))
    );
}
