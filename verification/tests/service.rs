use std::sync::{Arc, Mutex};
use std::time::{Duration, Instant};

use async_channel::{Receiver, Sender};
use s2a4c::endpoint::{Endpoint, EndpointError};
use s2a4c::router::{Delivery, Registration, Router};

type Shared = Arc<Mutex<Router<String, String>>>;

fn runtime() -> tokio::runtime::Runtime {
    tokio::runtime::Builder::new_multi_thread()
        .worker_threads(2)
        .enable_time()
        .build()
        .unwrap()
}

async fn registration_loop(shared: Shared) {
    let (registrations, requests) = {
        let router = shared.lock().unwrap();
        (router.registration_receiver(), router.request_sender())
    };
    while let Ok((request, reply)) = registrations.recv().await {
        let outcome = shared.lock().unwrap().register(request, reply);
        match outcome {
            Registration::Dispatch { identifier, request } => {
                let requests = requests.clone();
                tokio::spawn(async move {
                    let _ = requests.send((identifier, request)).await;
                });
            }
            Registration::Collision { .. } => panic!("every identifier collided"),
        }
    }
}

async fn response_loop(shared: Shared) {
    let responses = shared.lock().unwrap().response_receiver();
    while let Ok((identifier, response)) = responses.recv().await {
        let outcome = shared.lock().unwrap().route(identifier, response);
        match outcome {
            Delivery::Deliver { reply, response } => {
                let _ = reply.send(response).await;
            }
            Delivery::Discard { .. } => {}
        }
    }
}

async fn echo_worker(delay: Duration, requests: Receiver<(u128, String)>, responses: Sender<(u128, String)>) {
    while let Ok((identifier, request)) = requests.recv().await {
        tokio::time::sleep(delay).await;
        let response = format!("Response to request: {}", request);
        responses.send((identifier, response)).await.unwrap();
    }
}

fn start(router: Router<String, String>, workers: usize, delay: Duration) -> Shared {
    let shared = Arc::new(Mutex::new(router));
    tokio::spawn(response_loop(shared.clone()));
    tokio::spawn(registration_loop(shared.clone()));
    for _ in 0..workers {
        let (requests, responses) = {
            let router = shared.lock().unwrap();
            (router.request_receiver(), router.response_sender())
        };
        tokio::spawn(echo_worker(delay, requests, responses));
    }
    shared
}

async fn handle_request(endpoint: &Endpoint<String, String>, request: String) -> Result<String, EndpointError> {
    let call = endpoint.prepare(request);
    let sent = call.registration_sender.send(call.registration).await;
    endpoint.submitted(sent)?;
    match endpoint.timeout() {
        Some(interval) => {
            endpoint.received_within(tokio::time::timeout(interval, call.reply_receiver.recv()).await)
        }
        None => endpoint.received(call.reply_receiver.recv().await),
    }
}

fn endpoint_and_router_with_timeout(timeout_in_msecs: u64, is_ok: bool) {
    runtime().block_on(async {
        let timeout = Duration::from_millis(timeout_in_msecs);
        let shared = start(Router::default(), 4, Duration::from_millis(200));

        let request = "Hello, world!".to_string();
        let endpoint = shared.lock().unwrap().endpoint(Some(timeout));
        let response = handle_request(&endpoint, request.clone()).await;
        assert_eq!(response.is_ok(), is_ok);
        match response {
            Ok(response) => {
                assert_eq!(response, format!("Response to request: {}", request));
            }
            Err(err) => {
                assert!(matches!(err, EndpointError::Timeout(_)));
            }
        }
    });
}

#[test]
fn test_endpoint_and_router_with_timeout() {
    endpoint_and_router_with_timeout(250, true);
    endpoint_and_router_with_timeout(150, false);
}

#[test]
fn timeout_returns_close_to_the_interval() {
    runtime().block_on(async {
        let shared = start(Router::default(), 1, Duration::from_millis(2000));
        let endpoint = shared.lock().unwrap().endpoint(Some(Duration::from_millis(100)));
        let began = Instant::now();
        let response = handle_request(&endpoint, "slow".to_string()).await;
        let took = began.elapsed();
        assert!(matches!(response, Err(EndpointError::Timeout(_))));
        assert!(took >= Duration::from_millis(100));
        assert!(took < Duration::from_millis(1500));
    });
}

#[test]
fn call_without_timeout_waits_for_a_slow_worker() {
    runtime().block_on(async {
        let shared = start(Router::default(), 1, Duration::from_millis(400));
        let endpoint = shared.lock().unwrap().endpoint(None);
        let response = handle_request(&endpoint, "patience".to_string()).await;
        assert_eq!(response, Ok("Response to request: patience".to_string()));
    });
}

#[test]
fn more_requests_than_workers_all_complete() {
    runtime().block_on(async {
        let shared = start(Router::bounded(Some(2), Some(2), Some(2)), 3, Duration::from_millis(20));
        let mut calls = Vec::new();
        for n in 0..20 {
            let endpoint = shared.lock().unwrap().endpoint(Some(Duration::from_secs(10)));
            calls.push(tokio::spawn(async move {
                handle_request(&endpoint, format!("request {}", n)).await
            }));
        }
        for (n, call) in calls.into_iter().enumerate() {
            assert_eq!(call.await.unwrap(), Ok(format!("Response to request: request {}", n)));
        }
    });
}

#[test]
fn concurrent_calls_are_not_cross_wired() {
    runtime().block_on(async {
        let shared = start(Router::bounded(None, None, None), 8, Duration::from_millis(5));
        let mut calls = Vec::new();
        for n in 0..200 {
            let endpoint = shared.lock().unwrap().endpoint(None);
            calls.push(tokio::spawn(async move {
                handle_request(&endpoint, format!("{}", n)).await
            }));
        }
        for (n, call) in calls.into_iter().enumerate() {
            assert_eq!(call.await.unwrap(), Ok(format!("Response to request: {}", n)));
        }
    });
}

#[test]
fn late_response_is_dropped_and_later_calls_succeed() {
    runtime().block_on(async {
        let shared = start(Router::default(), 2, Duration::from_millis(150));
        let hasty = shared.lock().unwrap().endpoint(Some(Duration::from_millis(30)));
        let calm = shared.lock().unwrap().endpoint(Some(Duration::from_secs(5)));

        let first = handle_request(&hasty, "first".to_string()).await;
        assert!(matches!(first, Err(EndpointError::Timeout(_))));

        let second = handle_request(&calm, "second".to_string()).await;
        assert_eq!(second, Ok("Response to request: second".to_string()));

        tokio::time::sleep(Duration::from_millis(200)).await;
        let third = handle_request(&calm, "third".to_string()).await;
        assert_eq!(third, Ok("Response to request: third".to_string()));
    });
}

#[test]
fn closed_registration_queue_fails_the_submission_at_once() {
    runtime().block_on(async {
        let router: Router<String, String> = Router::default();
        let endpoint = router.endpoint(None);
        router.registration_receiver().close();
        let response = handle_request(&endpoint, "nobody home".to_string()).await;
        assert_eq!(response, Err(EndpointError::RequestSend));
    });
}

#[test]
fn dropped_reply_handle_fails_the_wait() {
    runtime().block_on(async {
        let router: Router<String, String> = Router::default();
        let endpoint = router.endpoint(None);
        let registrations = router.registration_receiver();
        tokio::spawn(async move {
            let registration = registrations.recv().await.unwrap();
            drop(registration);
        });
        let response = handle_request(&endpoint, "abandoned".to_string()).await;
        assert!(matches!(response, Err(EndpointError::ResponseReceive(_))));
    });
}
