# actor_telemetry

Telemetry rules for actor invocations, verified with Verus.

Every invocation has a ray id, and every piece of work that it starts shares it.
When trace export is configured, invocations, callbacks and runtime operations are
also described as spans. The library decides what a span is called, where it hangs
in a trace, what is recorded on it and which fields are handed to other actors.
It holds no span open itself: `app/` opens the described spans with `tracing` and
exports them with OpenTelemetry.

- `src/ray.rs`, `src/headers.rs`: ray ids and the header fields they arrive in
- `src/propagation.rs`, `src/context.rs`: W3C trace context, outbound and durable
- `src/span.rs`: span descriptions and outcomes
- `src/callback.rs`, `src/invocation.rs`: telemetry of callbacks and invocations
- `src/export.rs`: when traces are exported, and the one provider of a process
- `src/schema.rs`: the stored form of schedules and of the schema version
- `src/laws.rs`: what holds of telemetry as a whole
- `app/`: the same telemetry on top of `tracing`, OpenTelemetry and `tokio`
