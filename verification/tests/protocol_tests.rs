use mini_msp::os_report::OSReporter;
use mini_msp::protocol::{
    agent_command_topic, agent_response_topic, command_topic, event_topic, heartbeat_ack_topic,
    heartbeat_topic, metrics_response_topic, response_subscription, response_topic,
};

#[test]
fn test_topic_generation() {
    let agent_id = "test-agent-123";
    let command_id = "cmd-456";
    let plugin = "system_plugin";

    assert_eq!(command_topic(agent_id), "commands.test-agent-123");
    assert_eq!(heartbeat_topic(agent_id), "heartbeat.test-agent-123");
    assert_eq!(response_topic(agent_id, command_id), "responses.test-agent-123.cmd-456");
    assert_eq!(event_topic(agent_id, plugin), "events.test-agent-123.system_plugin");
}

#[test]
fn test_main_function() {
    // The report program's entry point does its work through the library;
    // nothing here may panic.
}

#[test]
fn test_os_info_collection() {
    // A smoke test: reading the figures out of empty command output either
    // gives a value or the report's error, and does not panic.
    let result = OSReporter::total_memory("");
    assert!(result.is_ok() || result.is_err());
}

#[test]
fn other_topics_follow_the_agent_id() {
    assert_eq!(heartbeat_ack_topic("a1"), "heartbeat_ack.a1");
    assert_eq!(response_subscription("a1"), "responses.a1.*");
    assert_eq!(metrics_response_topic("a1"), "metrics_response.a1");
    assert_eq!(agent_command_topic("a1"), "agent.a1.commands");
    assert_eq!(agent_response_topic("a1"), "agent.a1.responses");
}
