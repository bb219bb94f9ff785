use conduit::StartInstant;
use conduit_hyper::adaptor::{ConduitRequest, Parts, RemoteAddr, RequestInfo};
use conduit_hyper::dispatch::{Dispatcher, Handler, ApplicationError, TaskOutcome};
use conduit_hyper::pool::WorkerPool;
use conduit_hyper::response::{build_headers, Response, WireResponse};

struct OkResult;
impl Handler for OkResult {
    fn call(&self, _req: &mut ConduitRequest) -> Result<Response, ApplicationError> {
        Ok(Response {
            status: (200, "OK"),
            headers: build_headers("value"),
            body: b"Hello, world!".to_vec(),
        })
    }
}

struct ErrorResult;
impl Handler for ErrorResult {
    fn call(&self, _req: &mut ConduitRequest) -> Result<Response, ApplicationError> {
        let error = ::std::io::Error::last_os_error();
        Err(ApplicationError {
            message: error.to_string(),
        })
    }
}

struct InvalidHeader;
impl Handler for InvalidHeader {
    fn call(&self, _req: &mut ConduitRequest) -> Result<Response, ApplicationError> {
        let mut headers = build_headers("discarded");
        headers.insert("invalid".into(), vec!["\r\n".into()]);
        Ok(Response {
            status: (200, "OK"),
            headers,
            body: b"discarded".to_vec(),
        })
    }
}

struct InvalidStatus;
impl Handler for InvalidStatus {
    fn call(&self, _req: &mut ConduitRequest) -> Result<Response, ApplicationError> {
        Ok(Response {
            status: (1000, "invalid status code"),
            headers: build_headers("discarded"),
            body: b"discarded".to_vec(),
        })
    }
}

fn default_request() -> RequestInfo {
    let parts = Parts {
        method: http::Method::GET,
        path: String::from("/"),
        query: None,
        version: http::Version::HTTP_11,
        headers: http::HeaderMap::new(),
        extensions: http::Extensions::new(),
    };
    RequestInfo::new(parts, Vec::new())
}

fn simulate_request<H: Handler>(handler: H) -> WireResponse {
    let dispatcher = Dispatcher::new(handler, 1);
    let mut info = default_request();
    dispatcher.serve(&mut info, RemoteAddr::placeholder(), StartInstant::now())
}

fn assert_generic_err(resp: WireResponse) {
    assert_eq!(resp.status, 500);
    assert!(resp.headers.is_empty());
    assert_eq!(&*resp.body, b"Internal Server Error");
}

#[test]
fn serving_takes_the_snapshot() {
    let dispatcher = Dispatcher::new(OkResult, 1);
    let mut info = default_request();
    assert!(!info.is_taken());
    let _ = dispatcher.serve(&mut info, RemoteAddr::placeholder(), StartInstant::now());
    assert!(info.is_taken());
}

#[test]
fn run_wraps_what_the_handler_returns() {
    let mut info = default_request();
    let ok = Dispatcher::new(OkResult, 1).run(&mut info, RemoteAddr::placeholder(), StartInstant::now());
    match ok {
        TaskOutcome::Succeeded(response) => {
            assert_eq!(response.status, (200, "OK"));
            assert_eq!(response.body, b"Hello, world!");
        }
        _ => panic!("the handler returned a response"),
    }
    let mut info = default_request();
    let failed = Dispatcher::new(ErrorResult, 1).run(&mut info, RemoteAddr::placeholder(), StartInstant::now());
    assert!(matches!(failed, TaskOutcome::Failed(_)));
    assert!(matches!(
        TaskOutcome::returned(Err(ApplicationError {
            message: String::from("no"),
        })),
        TaskOutcome::Failed(_)
    ));
}

struct Echo;
impl Handler for Echo {
    fn call(&self, req: &mut ConduitRequest) -> Result<Response, ApplicationError> {
        let mut body = vec![0u8; req.body().len()];
        let read = req.body().read(&mut body);
        body.truncate(read);
        Ok(Response {
            status: (200, "OK"),
            headers: build_headers(req.path()),
            body,
        })
    }
}

#[test]
fn handler_sees_the_request() {
    let parts = Parts {
        method: http::Method::POST,
        path: String::from("/caf%C3%A9"),
        query: None,
        version: http::Version::HTTP_11,
        headers: http::HeaderMap::new(),
        extensions: http::Extensions::new(),
    };
    let mut info = RequestInfo::new(parts, b"ping".to_vec());
    let resp = Dispatcher::new(Echo, 2).serve(&mut info, RemoteAddr::placeholder(), StartInstant::now());
    assert_eq!(resp.status, 200);
    assert_eq!(resp.headers, vec![(String::from("ok"), String::from("/caf\u{e9}"))]);
    assert_eq!(resp.body, b"ping");
}

#[test]
fn valid_ok_response() {
    let resp = simulate_request(OkResult);
    assert_eq!(resp.status, 200);
    assert_eq!(resp.headers.len(), 1);
    assert_eq!(&*resp.body, b"Hello, world!");
}

#[test]
fn invalid_ok_responses() {
    assert_generic_err(simulate_request(InvalidHeader));
    assert_generic_err(simulate_request(InvalidStatus));
}

#[test]
fn err_responses() {
    assert_generic_err(simulate_request(ErrorResult));
}

#[test]
fn recover_from_panic() {
    let dispatcher = Dispatcher::new(OkResult, 1);
    let mut pool: WorkerPool<RequestInfo> = WorkerPool::new(dispatcher.pool_size());

    // First call panics and is turned into a generic error. A test cannot
    // catch a panic, so the worker's report of one is given to the pool as
    // the worker gives it.
    let started = pool.submit(default_request());
    assert!(started.is_some());
    let done = pool.complete(TaskOutcome::Panicked);
    assert!(done.next.is_none());
    assert_generic_err(done.response);
    assert_eq!(pool.size(), 1);
    assert_eq!(pool.busy(), 0);

    // Second call returns status 200: the worker is still there
    let mut info = pool.submit(default_request()).unwrap();
    let outcome = dispatcher.run(&mut info, RemoteAddr::placeholder(), StartInstant::now());
    let done = pool.complete(outcome);
    assert_eq!(done.response.status, 200);
}
