use pza_plugin_std::serial_port::driver::{
    request_action, Driver, RequestAction, DEFAULT_BAUD_RATE, IDLE_READ_DELAY_MS,
};
use pza_plugin_std::serial_port::model::{Model, Request, OPEN_ATTRIBUTE_INITIAL};
use pza_plugin_std::serial_port::producer::StdSerialPort;
use std::sync::Arc;

#[test]
fn model_starts_without_request() {
    let mut model = Model::new();
    assert_eq!(model.take_request(), None);
    assert!(!OPEN_ATTRIBUTE_INITIAL);
}

#[test]
fn model_serves_last_request_once() {
    let mut model = Model::new();
    model.request_open();
    model.request_close();
    model.apply_open_command(true);
    assert_eq!(model.take_request(), Some(Request::Open));
    assert_eq!(model.take_request(), None);
    model.apply_open_command(false);
    assert_eq!(model.take_request(), Some(Request::Close));
}

#[test]
fn model_shares_its_notifier() {
    let model = Model::new();
    let a = model.clone_request_notifier();
    let b = model.clone_request_notifier();
    assert!(Arc::ptr_eq(&a, &b));
}

fn runtime() -> tokio::runtime::Runtime {
    tokio::runtime::Builder::new_current_thread().enable_all().build().unwrap()
}

#[test]
fn model_request_wakes_waiter() {
    runtime().block_on(async {
        let mut model = Model::new();
        let notifier = model.clone_request_notifier();
        let mut notified = Box::pin(notifier.notified());
        notified.as_mut().enable();
        model.request_open();
        tokio::time::timeout(std::time::Duration::from_secs(5), notified)
            .await
            .expect("the waiter was not woken");
    });
}

#[test]
fn request_actions() {
    assert_eq!(request_action(Some(Request::Open)), RequestAction::OpenPort);
    assert_eq!(request_action(Some(Request::Close)), RequestAction::Unimplemented);
    assert_eq!(request_action(Some(Request::Restart)), RequestAction::Unimplemented);
    assert_eq!(request_action(None), RequestAction::Unimplemented);
}

#[test]
fn driver_opens_default_port_once() {
    let driver = Driver::new();
    assert!(driver.serial_stream.is_none());
    let target = driver.open_target().unwrap();
    assert_eq!(target.port_name, "COM7");
    assert_eq!(target.baud_rate, DEFAULT_BAUD_RATE);
    assert_eq!(DEFAULT_BAUD_RATE, 115200);
    assert_eq!(IDLE_READ_DELAY_MS, 60000);
}

#[test]
fn serial_port_producer_names() {
    let p = StdSerialPort::new();
    assert_eq!(p.manufacturer(), "std");
    assert_eq!(p.model(), "serial-port");
    assert_eq!(p.description(), "");
}
