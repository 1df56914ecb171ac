# browser_agent

The verified core of an MCP server that drives a Chromium-based browser
through the DevTools protocol.

- `src/` is the library, verified with Verus: the launch of the browser
  (`chrome`), the texts of its errors (`err`), decimal rendering (`text`),
  the answers of the tools (`outcome`, `srv`, `tools`). Launching, waiting
  for the port and navigating are state machines: the application performs
  each action and reports the outcome back.
- `app/` is the server program: process, socket, file-system and DevTools
  calls, the MCP transport, and the tool handlers that run the library's
  steps.
- `tests/` runs the library on concrete values.
